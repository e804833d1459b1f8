use crate::robot::{in_grid, GRID_SIZE};
use crate::world::World;
use vstd::prelude::*;

verus! {

/// Side of one cell on screen, in pixels.
pub const CELL_SIZE: usize = 20;

/// What a drawn square shows.
#[derive(Clone, Copy, Debug, PartialEq, Eq, Structural)]
pub enum Fill {
    Grid,
    Obstacle,
    Robot,
}

/// An axis-aligned square to draw, in pixels.
#[derive(Clone, Copy, Debug, PartialEq, Eq, Structural)]
pub struct Tile {
    pub left: usize,
    pub top: usize,
    pub side: usize,
    pub fill: Fill,
}

/// The square that covers cell `(x, y)`.
pub open spec fn cell_tile(x: usize, y: usize, fill: Fill) -> Tile {
    Tile { left: (x * CELL_SIZE) as usize, top: (y * CELL_SIZE) as usize, side: CELL_SIZE, fill }
}

impl Tile {
    /// The square that covers cell `(x, y)` of the grid.
    pub fn at(x: usize, y: usize, fill: Fill) -> (r: Tile)
        requires
            in_grid(x as int, y as int),
        ensures
            r == cell_tile(x, y, fill),
    {
        Tile { left: x * CELL_SIZE, top: y * CELL_SIZE, side: CELL_SIZE, fill }
    }
}

impl World {
    /// Number of squares in a frame of this world.
    pub open spec fn frame_len(self) -> int {
        GRID_SIZE * GRID_SIZE + self.obstacles@.len() + 1
    }

    /// The squares to draw for one frame, in drawing order: every grid cell (column
    /// by column), then each obstacle as listed, then the robot on top.
    pub fn frame(&self) -> (r: Vec<Tile>)
        requires
            self.wf(),
        ensures
            r@.len() == self.frame_len(),
            forall|i: int, j: int|
                0 <= i < GRID_SIZE && 0 <= j < GRID_SIZE ==> #[trigger] r@[i * GRID_SIZE + j]
                    == cell_tile(i as usize, j as usize, Fill::Grid),
            forall|k: int|
                0 <= k < self.obstacles@.len() ==> #[trigger] r@[GRID_SIZE * GRID_SIZE + k]
                    == cell_tile(self.obstacles@[k].0, self.obstacles@[k].1, Fill::Obstacle),
            r@[self.frame_len() - 1] == cell_tile(self.robot.x, self.robot.y, Fill::Robot),
    {
        let mut tiles: Vec<Tile> = Vec::new();
        let mut i: usize = 0;
        while i < GRID_SIZE
            invariant
                i <= GRID_SIZE,
                tiles@.len() == i * GRID_SIZE,
                forall|a: int, b: int|
                    0 <= a < i && 0 <= b < GRID_SIZE ==> #[trigger] tiles@[a * GRID_SIZE + b]
                        == cell_tile(a as usize, b as usize, Fill::Grid),
            decreases GRID_SIZE - i,
        {
            let mut j: usize = 0;
            while j < GRID_SIZE
                invariant
                    i < GRID_SIZE,
                    j <= GRID_SIZE,
                    tiles@.len() == i * GRID_SIZE + j,
                    forall|a: int, b: int|
                        0 <= a < i && 0 <= b < GRID_SIZE ==> #[trigger] tiles@[a * GRID_SIZE + b]
                            == cell_tile(a as usize, b as usize, Fill::Grid),
                    forall|b: int|
                        0 <= b < j ==> #[trigger] tiles@[i * GRID_SIZE + b] == cell_tile(
                            i as usize,
                            b as usize,
                            Fill::Grid,
                        ),
                decreases GRID_SIZE - j,
            {
                tiles.push(Tile::at(i, j, Fill::Grid));
                j = j + 1;
            }
            i = i + 1;
        }
        let base: usize = GRID_SIZE * GRID_SIZE;
        let mut k: usize = 0;
        while k < self.obstacles.len()
            invariant
                self.wf(),
                base == GRID_SIZE * GRID_SIZE,
                k <= self.obstacles@.len(),
                tiles@.len() == base + k,
                forall|a: int, b: int|
                    0 <= a < GRID_SIZE && 0 <= b < GRID_SIZE ==> #[trigger] tiles@[a * GRID_SIZE
                        + b] == cell_tile(a as usize, b as usize, Fill::Grid),
                forall|m: int|
                    0 <= m < k ==> #[trigger] tiles@[base + m] == cell_tile(
                        self.obstacles@[m].0,
                        self.obstacles@[m].1,
                        Fill::Obstacle,
                    ),
            decreases self.obstacles@.len() - k,
        {
            let (x, y) = self.obstacles[k];
            assert(in_grid(self.obstacles@[k as int].0 as int, self.obstacles@[k as int].1 as int));
            tiles.push(Tile::at(x, y, Fill::Obstacle));
            k = k + 1;
        }
        tiles.push(Tile::at(self.robot.x, self.robot.y, Fill::Robot));
        tiles
    }
}

} // verus!
