use crate::random::random_below;
use crate::robot::{clamp_coordinate, in_grid, Robot, GRID_SIZE};
use vstd::prelude::*;

verus! {

/// Number of obstacles placed on a new world.
pub const OBSTACLE_COUNT: usize = 10;

/// Every pair of `cells` names a cell of the grid.
pub open spec fn all_in_grid(cells: Seq<(usize, usize)>) -> bool {
    forall|i: int| 0 <= i < cells.len() ==> in_grid(#[trigger] cells[i].0 as int, cells[i].1 as int)
}

/// The robot and the fixed obstacles around it.
pub struct World {
    pub robot: Robot,
    pub obstacles: Vec<(usize, usize)>,
}

impl World {
    /// The robot and every obstacle stand on the grid.
    pub open spec fn wf(self) -> bool {
        self.robot.wf() && all_in_grid(self.obstacles@)
    }

    /// Whether an obstacle occupies `(x, y)`; duplicate entries count once.
    pub open spec fn blocked(self, x: usize, y: usize) -> bool {
        self.obstacles@.contains((x, y))
    }

    /// Where a collision-gated move by `(dx, dy)` leaves the robot: at the clamped
    /// target, unless an obstacle occupies it, in which case where it was.
    pub open spec fn robot_after(self, dx: int, dy: int) -> Robot {
        let target = self.robot.moved(dx, dy);
        if self.blocked(target.x, target.y) {
            self.robot
        } else {
            target
        }
    }

    /// A world with the robot at the centre of the grid and `OBSTACLE_COUNT`
    /// obstacles placed at random.
    pub fn new() -> (r: World)
        ensures
            r.wf(),
            r.robot.x == GRID_SIZE / 2,
            r.robot.y == GRID_SIZE / 2,
            r.obstacles@.len() == OBSTACLE_COUNT,
    {
        let robot = Robot::new(GRID_SIZE / 2, GRID_SIZE / 2);
        let obstacles = World::generate_obstacles(OBSTACLE_COUNT);
        World { robot, obstacles }
    }

    /// A world with the given robot and obstacles.
    pub fn with_obstacles(robot: Robot, obstacles: Vec<(usize, usize)>) -> (r: World)
        requires
            robot.wf(),
            all_in_grid(obstacles@),
        ensures
            r.robot == robot,
            r.obstacles@ == obstacles@,
            r.wf(),
    {
        World { robot, obstacles }
    }

    /// `count` cells drawn independently and uniformly from the grid; repeats are possible.
    pub fn generate_obstacles(count: usize) -> (r: Vec<(usize, usize)>)
        ensures
            r@.len() == count,
            all_in_grid(r@),
    {
        let mut obstacles: Vec<(usize, usize)> = Vec::new();
        let mut n: usize = 0;
        while n < count
            invariant
                n <= count,
                obstacles@.len() == n,
                all_in_grid(obstacles@),
            decreases count - n,
        {
            let x = random_below(GRID_SIZE);
            let y = random_below(GRID_SIZE);
            obstacles.push((x, y));
            n = n + 1;
        }
        obstacles
    }

    /// The robot's cell, as `(x, y)`.
    pub fn position(&self) -> (r: (usize, usize))
        ensures
            r == (self.robot.x, self.robot.y),
    {
        (self.robot.x, self.robot.y)
    }

    /// Whether an obstacle occupies `(x, y)`.
    pub fn is_obstacle(&self, x: usize, y: usize) -> (r: bool)
        ensures
            r == self.blocked(x, y),
    {
        let mut i: usize = 0;
        while i < self.obstacles.len()
            invariant
                i <= self.obstacles@.len(),
                forall|k: int| 0 <= k < i ==> self.obstacles@[k] != (x, y),
            decreases self.obstacles@.len() - i,
        {
            let (ox, oy) = self.obstacles[i];
            if ox == x && oy == y {
                return true;
            }
            i = i + 1;
        }
        false
    }

    /// Moves the robot by `(dx, dy)` with clamping, unless the clamped target holds
    /// an obstacle; a rejected move changes nothing and reports nothing.
    pub fn move_robot(&mut self, dx: isize, dy: isize)
        requires
            old(self).wf(),
        ensures
            final(self).robot == old(self).robot_after(dx as int, dy as int),
            final(self).obstacles@ == old(self).obstacles@,
            final(self).wf(),
    {
        let new_x = clamp_coordinate(self.robot.x, dx);
        let new_y = clamp_coordinate(self.robot.y, dy);
        if !self.is_obstacle(new_x, new_y) {
            self.robot.move_robot(dx, dy);
        }
    }
}

} // verus!
