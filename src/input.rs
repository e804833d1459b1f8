use crate::robot::Robot;
use crate::world::World;
use vstd::prelude::*;

verus! {

/// A key press as the world sees it: one of the four directions, or anything else.
#[derive(Clone, Copy, Debug, PartialEq, Eq, Structural)]
pub enum Key {
    Up,
    Down,
    Left,
    Right,
    Other,
}

impl Key {
    /// The unit step a key asks for; `None` for a key that moves nothing.
    pub open spec fn step(self) -> Option<(isize, isize)> {
        match self {
            Key::Up => Some((0isize, -1isize)),
            Key::Down => Some((0isize, 1isize)),
            Key::Left => Some((-1isize, 0isize)),
            Key::Right => Some((1isize, 0isize)),
            Key::Other => None,
        }
    }

    /// The delta of a directional key; `None` for any other key.
    pub fn delta(self) -> (r: Option<(isize, isize)>)
        ensures
            r == self.step(),
    {
        match self {
            Key::Up => Some((0, -1)),
            Key::Down => Some((0, 1)),
            Key::Left => Some((-1, 0)),
            Key::Right => Some((1, 0)),
            Key::Other => None,
        }
    }
}

impl World {
    /// Where pressing `key` leaves the robot.
    pub open spec fn robot_after_key(self, key: Key) -> Robot {
        match key.step() {
            Some(d) => self.robot_after(d.0 as int, d.1 as int),
            None => self.robot,
        }
    }

    /// Handles a key press: a directional key makes the collision-gated move by its
    /// unit step, any other key is ignored.
    pub fn press(&mut self, key: Key)
        requires
            old(self).wf(),
        ensures
            final(self).robot == old(self).robot_after_key(key),
            final(self).obstacles@ == old(self).obstacles@,
            final(self).wf(),
    {
        match key.delta() {
            Some((dx, dy)) => self.move_robot(dx, dy),
            None => {},
        }
    }
}

} // verus!
