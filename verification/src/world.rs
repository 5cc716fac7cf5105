use vstd::prelude::*;
use crate::tile::Tile;

verus! {

/// A cell of the grid, by column `x` and row `y`.
#[derive(Clone, Copy, Debug, PartialEq, Eq, Structural)]
pub struct Cell {
    pub x: usize,
    pub y: usize,
}

/// The fixed grid of tiles.
#[derive(Debug)]
pub struct World<const W: usize, const H: usize> {
    tiles: [[Tile; H]; W],
}

impl<const W: usize, const H: usize> World<W, H> {
    /// Whether column `x`, row `y` names a cell of the grid.
    pub open spec fn in_grid(x: int, y: int) -> bool {
        0 <= x < W && 0 <= y < H
    }

    /// The tile stored at column `x`, row `y`.
    pub closed spec fn at(&self, x: int, y: int) -> Tile {
        self.tiles[x][y]
    }

    /// The grid as a map from the cells of the grid to their tiles.
    pub open spec fn view(&self) -> Map<(int, int), Tile> {
        Map::new(|c: (int, int)| Self::in_grid(c.0, c.1), |c: (int, int)| self.at(c.0, c.1))
    }

    /// The tile under a position that falls in `cell`; absent for a position
    /// that falls in no cell at all, or in one off the grid.
    pub open spec fn tile_under(&self, cell: Option<Cell>) -> Option<Tile> {
        match cell {
            Some(c) => self@.get((c.x as int, c.y as int)),
            None => None,
        }
    }

    /// Whether no tile of the grid is solid.
    pub open spec fn all_air(&self) -> bool {
        forall|c: (int, int)| self@.contains_key(c) ==> !(#[trigger] self@[c]).solid()
    }

    /// Number of columns of the grid.
    pub fn width(&self) -> (r: usize)
        ensures
            r == W,
    {
        W
    }

    /// Number of rows of the grid.
    pub fn height(&self) -> (r: usize)
        ensures
            r == H,
    {
        H
    }

    /// Builds a world whose tile at column `x`, row `y` is `tiles[x][y]`.
    pub fn from_tiles(tiles: [[Tile; H]; W]) -> (w: Self)
        ensures
            forall|x: int, y: int| Self::in_grid(x, y) ==> w@[(x, y)] == tiles[x][y],
    {
        Self { tiles }
    }

    /// The tile at column `x`, row `y`, absent when either index is off the grid.
    pub fn tile(&self, x: usize, y: usize) -> (r: Option<&Tile>)
        ensures
            match r {
                Some(t) => self@.get((x as int, y as int)) == Some(*t),
                None => self@.get((x as int, y as int)).is_none(),
            },
    {
        if x < W && y < H {
            Some(&self.tiles[x][y])
        } else {
            None
        }
    }

    /// The tile under a continuous position, given as the cell that the
    /// position falls in. A position with a negative or non-finite coordinate
    /// falls in no cell and is passed as `None`; it has no tile, and neither
    /// has a cell off the grid.
    pub fn tile_vec(&self, cell: Option<Cell>) -> (r: Option<&Tile>)
        ensures
            match r {
                Some(t) => self.tile_under(cell) == Some(*t),
                None => self.tile_under(cell).is_none(),
            },
    {
        match cell {
            Some(c) => self.tile(c.x, c.y),
            None => None,
        }
    }

    /// Replaces the tile at column `x`, row `y` and returns the one that was
    /// there. Off the grid nothing changes and nothing is returned.
    pub fn set_tile(&mut self, x: usize, y: usize, new_tile: Tile) -> (r: Option<Tile>)
        ensures
            r == old(self)@.get((x as int, y as int)),
            final(self)@ == if Self::in_grid(x as int, y as int) {
                old(self)@.insert((x as int, y as int), new_tile)
            } else {
                old(self)@
            },
    {
        if x < W && y < H {
            let previous = self.tiles[x][y];
            self.tiles[x][y] = new_tile;
            Some(previous)
        } else {
            None
        }
    }
}

impl<const W: usize, const H: usize> Default for World<W, H> {
    /// A world of air.
    fn default() -> (w: Self)
        ensures
            forall|x: int, y: int| Self::in_grid(x, y) ==> w@[(x, y)] == Tile::Air,
            w.all_air(),
    {
        Self { tiles: [[Tile::Air; H]; W] }
    }
}

} // verus!
