use vstd::prelude::*;

verus! {

/// One cell of the grid: passable air or a solid wall.
#[derive(Clone, Copy, Debug, PartialEq, Eq, Structural)]
pub enum Tile {
    Air,
    Wall,
}

impl Tile {
    /// A tile is solid exactly when it is a wall.
    pub open spec fn solid(self) -> bool {
        self == Tile::Wall
    }

    /// Whether the tile stops rays and movement.
    pub fn is_solid(&self) -> (r: bool)
        ensures
            r == self.solid(),
    {
        match self {
            Tile::Air => false,
            Tile::Wall => true,
        }
    }
}

impl Default for Tile {
    /// The default tile is air.
    fn default() -> (r: Tile)
        ensures
            r == Tile::Air,
    {
        Tile::Air
    }
}

} // verus!
