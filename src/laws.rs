use crate::input::Key;
use crate::robot::{Robot, GRID_SIZE};
use crate::world::World;
use vstd::prelude::*;

verus! {

/// A bounded move from any cell of the grid, by any delta, ends on a cell of the grid.
pub proof fn lemma_move_stays_in_grid(r: Robot, dx: int, dy: int)
    requires
        r.wf(),
    ensures
        r.moved(dx, dy).wf(),
        0 <= r.moved(dx, dy).x <= GRID_SIZE - 1,
        0 <= r.moved(dx, dy).y <= GRID_SIZE - 1,
{
}

/// Moving up from the top row leaves the robot where it was, whether by a bounded
/// move, a collision-gated move or the up key.
pub proof fn lemma_up_from_top_row_stays(w: World)
    requires
        w.wf(),
        w.robot.y == 0,
    ensures
        w.robot.moved(0, -1) == w.robot,
        w.robot_after(0, -1) == w.robot,
        w.robot_after_key(Key::Up) == w.robot,
{
}

/// A collision-gated move either leaves the robot where it was or puts it on a cell
/// that no obstacle occupies.
pub proof fn lemma_gated_move_avoids_obstacles(w: World, dx: int, dy: int)
    requires
        w.wf(),
    ensures
        w.robot_after(dx, dy) == w.robot || !w.blocked(
            w.robot_after(dx, dy).x,
            w.robot_after(dx, dy).y,
        ),
        w.robot_after(dx, dy).wf(),
{
}

/// A key that is not one of the four directions leaves the robot where it was.
pub proof fn lemma_other_key_ignored(w: World)
    ensures
        w.robot_after_key(Key::Other) == w.robot,
{
}

} // verus!
