//! The decisions of a ray cast.
//!
//! A cast runs two scans, one along each axis. A scan starts where the ray
//! first crosses a grid line of its axis and moves one tile at a time along
//! the ray. The caller does the stepping on continuous coordinates and asks
//! here, for the cell each position falls in, what the scan does next; then it
//! asks which of the two hits the cast returns.

use vstd::prelude::*;
use crate::direction::Direction;
use crate::tile::Tile;
use crate::world::{Cell, World};

verus! {

/// The axis whose grid lines a scan steps along: `X` for the vertical lines,
/// one column per step, `Y` for the horizontal lines, one row per step.
#[derive(Clone, Copy, Debug, PartialEq, Eq, Structural)]
pub enum Axis {
    X,
    Y,
}

/// What a scan does at the cell it has reached.
#[derive(Clone, Copy, Debug, PartialEq, Eq, Structural)]
pub enum ScanStep<'a> {
    /// The cell holds a solid tile: the scan ends with a hit on it.
    Hit(&'a Tile),
    /// The cell is passable: the scan moves on to its next grid line.
    Advance,
    /// The position has left the grid: the scan ends without a hit.
    Exit,
}

impl Axis {
    /// The face a scan along this axis strikes. It depends only on whether the
    /// ray's component on the axis is positive.
    pub open spec fn face_of(self, positive: bool) -> Direction {
        match self {
            Axis::X => if positive { Direction::East } else { Direction::West },
            Axis::Y => if positive { Direction::North } else { Direction::South },
        }
    }

    /// The face of impact of a hit found by the scan along this axis, for a
    /// ray whose component on the axis is positive or not.
    pub fn face(self, positive: bool) -> (r: Direction)
        ensures
            r == self.face_of(positive),
    {
        match self {
            Axis::X => if positive { Direction::East } else { Direction::West },
            Axis::Y => if positive { Direction::North } else { Direction::South },
        }
    }
}

impl<const W: usize, const H: usize> World<W, H> {
    /// What a scan does at `cell`: it leaves where there is no tile, hits where
    /// the tile is solid, and advances otherwise.
    pub open spec fn scan(&self, cell: Option<Cell>) -> ScanStep<'_> {
        match self.tile_under(cell) {
            None => ScanStep::Exit,
            Some(t) => if t.solid() { ScanStep::Hit(&t) } else { ScanStep::Advance },
        }
    }

    /// Decides one step of a scan whose position falls in `cell` (`None` for a
    /// position that falls in no cell). The scan goes on only over passable
    /// tiles of the grid: it stops with a hit on the first solid one, and
    /// without a hit as soon as the position is off the grid.
    pub fn scan_step(&self, cell: Option<Cell>) -> (r: ScanStep<'_>)
        ensures
            r == self.scan(cell),
    {
        match self.tile_vec(cell) {
            None => ScanStep::Exit,
            Some(tile) => if tile.is_solid() { ScanStep::Hit(tile) } else { ScanStep::Advance },
        }
    }
}

/// The face of impact that a fixed-step march reports for the solid tile it
/// has entered. `x_dominant` says that the sample lies farther from the tile's
/// boundary ahead on `x` than from the one ahead on `y`: the ray then came in
/// across a vertical grid line and shows the face of the X scan, otherwise
/// that of the Y scan.
pub open spec fn march_face_of(x_dominant: bool, x_positive: bool, y_positive: bool) -> Direction {
    if x_dominant {
        Axis::X.face_of(x_positive)
    } else {
        Axis::Y.face_of(y_positive)
    }
}

/// The face of impact for the fixed-step march, from the signs of the ray's
/// components and from which boundary ahead the sample is farther from.
pub fn march_face(x_dominant: bool, x_positive: bool, y_positive: bool) -> (r: Direction)
    ensures
        r == march_face_of(x_dominant, x_positive, y_positive),
{
    if x_dominant {
        Axis::X.face(x_positive)
    } else {
        Axis::Y.face(y_positive)
    }
}

/// The nearer of the hits of the two scans: the only one where one scan found
/// none, and nothing where neither did. Where both hit, the X hit wins only if
/// `x_nearer` says that it is strictly nearer, so a tie goes to the Y hit.
pub open spec fn nearer_of<T>(x_hit: Option<T>, y_hit: Option<T>, x_nearer: bool) -> Option<T> {
    match (x_hit, y_hit) {
        (Some(x), Some(y)) => Some(if x_nearer { x } else { y }),
        (Some(x), None) => Some(x),
        (None, Some(y)) => Some(y),
        (None, None) => None,
    }
}

/// Combines the results of the X scan and the Y scan into the result of the
/// cast. `x_nearer` tells whether the X hit is strictly nearer than the Y hit;
/// it is read only where both scans hit.
pub fn nearest<T>(x_hit: Option<T>, y_hit: Option<T>, x_nearer: bool) -> (r: Option<T>)
    ensures
        r == nearer_of(x_hit, y_hit, x_nearer),
{
    match (x_hit, y_hit) {
        (Some(x), Some(y)) => Some(if x_nearer { x } else { y }),
        (Some(x), None) => Some(x),
        (None, Some(y)) => Some(y),
        (None, None) => None,
    }
}

/// A scan stops without a hit exactly when its position has left the grid:
/// when it falls in no cell, or in a cell beyond the last column or row.
pub proof fn lemma_scan_exits_off_grid<const W: usize, const H: usize>(
    world: &World<W, H>,
    cell: Option<Cell>,
)
    ensures
        world.scan(cell) is Exit <==> (cell matches Some(c) ==> !World::<W, H>::in_grid(
            c.x as int,
            c.y as int,
        )),
{
}

/// A scan hits only solid tiles of the grid, and reports the tile of the cell
/// it has reached.
pub proof fn lemma_scan_hits_solid<const W: usize, const H: usize>(
    world: &World<W, H>,
    cell: Option<Cell>,
)
    ensures
        world.scan(cell) matches ScanStep::Hit(t) ==> t.solid() && (cell matches Some(c)
            && World::<W, H>::in_grid(c.x as int, c.y as int) && world@[(c.x as int, c.y as int)]
            == *t),
{
}

/// On a grid without a solid tile no step of any scan is a hit: every scan
/// advances while it is on the grid and leaves it without a hit.
pub proof fn lemma_all_air_never_hits<const W: usize, const H: usize>(
    world: &World<W, H>,
    cell: Option<Cell>,
)
    requires
        world.all_air(),
    ensures
        !(world.scan(cell) is Hit),
        world.scan(cell) is Advance <==> world.tile_under(cell).is_some(),
{
    if let Some(c) = cell {
        if World::<W, H>::in_grid(c.x as int, c.y as int) {
            assert(world@.contains_key((c.x as int, c.y as int)));
        }
    }
}

/// A cast returns a hit exactly when one of its scans found one, and the hit
/// it returns is one of theirs. With no hit on either axis it returns nothing.
pub proof fn lemma_nearest_is_a_scan_hit<T>(x_hit: Option<T>, y_hit: Option<T>, x_nearer: bool)
    ensures
        nearer_of(x_hit, y_hit, x_nearer).is_some() <==> x_hit.is_some() || y_hit.is_some(),
        nearer_of(x_hit, y_hit, x_nearer) == x_hit || nearer_of(x_hit, y_hit, x_nearer) == y_hit,
{
}

} // verus!
