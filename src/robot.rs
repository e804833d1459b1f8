use vstd::prelude::*;

verus! {

/// Number of cells along each side of the square grid.
pub const GRID_SIZE: usize = 20;

/// Constrains a coordinate to the inclusive range `[0, GRID_SIZE - 1]`.
pub open spec fn clamp(v: int) -> int {
    if v < 0 {
        0
    } else if v > GRID_SIZE - 1 {
        GRID_SIZE - 1
    } else {
        v
    }
}

/// Whether `(x, y)` names a cell of the grid.
pub open spec fn in_grid(x: int, y: int) -> bool {
    0 <= x < GRID_SIZE && 0 <= y < GRID_SIZE
}

/// A robot occupying one cell of the grid.
#[derive(Clone, Copy, Debug, PartialEq, Eq, Structural)]
pub struct Robot {
    pub x: usize,
    pub y: usize,
}

impl Robot {
    /// The robot stands on a cell of the grid.
    pub open spec fn wf(self) -> bool {
        in_grid(self.x as int, self.y as int)
    }

    /// Where a move by `(dx, dy)` leaves the robot: each coordinate clamped to the grid.
    pub open spec fn moved(self, dx: int, dy: int) -> Robot {
        Robot { x: clamp(self.x + dx) as usize, y: clamp(self.y + dy) as usize }
    }

    pub fn new(x: usize, y: usize) -> (r: Robot)
        requires
            in_grid(x as int, y as int),
        ensures
            r.x == x,
            r.y == y,
            r.wf(),
    {
        Robot { x, y }
    }

    /// Moves by `(dx, dy)`, clamping each coordinate to the grid; any delta is accepted.
    pub fn move_robot(&mut self, dx: isize, dy: isize)
        requires
            old(self).wf(),
        ensures
            *final(self) == old(self).moved(dx as int, dy as int),
            final(self).wf(),
            0 <= final(self).x <= GRID_SIZE - 1,
            0 <= final(self).y <= GRID_SIZE - 1,
    {
        self.x = clamp_coordinate(self.x, dx);
        self.y = clamp_coordinate(self.y, dy);
    }
}

/// `clamp(v + d)` computed without overflow for every delta.
pub fn clamp_coordinate(v: usize, d: isize) -> (r: usize)
    requires
        v < GRID_SIZE,
    ensures
        r as int == clamp(v + d),
        r < GRID_SIZE,
{
    let sum: i128 = v as i128 + d as i128;
    if sum < 0 {
        0
    } else if sum > (GRID_SIZE - 1) as i128 {
        GRID_SIZE - 1
    } else {
        sum as usize
    }
}

} // verus!
