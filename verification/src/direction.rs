use vstd::prelude::*;

verus! {

/// A compass direction: the way a tile face looks, or a unit step on the grid.
/// East is the positive `x` axis and North the positive `y` axis.
#[derive(Clone, Copy, Debug, PartialEq, Eq, Structural)]
pub enum Direction {
    North,
    South,
    East,
    West,
}

impl Direction {
    /// The unit step of the direction, as its `x` and `y` components.
    pub open spec fn unit(self) -> (int, int) {
        match self {
            Direction::North => (0, 1),
            Direction::South => (0, -1),
            Direction::East => (1, 0),
            Direction::West => (-1, 0),
        }
    }

    /// The direction as an angle in whole degrees, counted from East towards
    /// North.
    pub open spec fn degrees(self) -> int {
        match self {
            Direction::North => 90,
            Direction::South => 270,
            Direction::East => 0,
            Direction::West => 180,
        }
    }

    /// The unit vector of the direction. Its components are whole numbers, so
    /// they are given exactly.
    pub fn vec(self) -> (r: (i32, i32))
        ensures
            r.0 == self.unit().0,
            r.1 == self.unit().1,
    {
        match self {
            Direction::North => (0, 1),
            Direction::South => (0, -1),
            Direction::East => (1, 0),
            Direction::West => (-1, 0),
        }
    }

    /// The angle of the direction in degrees, in `[0, 360)`. Each is a whole
    /// number of quarter turns, so it is given exactly.
    pub fn angle(self) -> (r: u16)
        ensures
            r == self.degrees(),
    {
        match self {
            Direction::North => 90,
            Direction::South => 270,
            Direction::East => 0,
            Direction::West => 180,
        }
    }
}

} // verus!
