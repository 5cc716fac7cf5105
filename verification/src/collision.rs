//! Movement against the grid: axis-separated sliding.
//!
//! A move is a current position and a proposed displacement. The caller forms
//! the three candidate targets (the position displaced by the whole
//! displacement, by its `x` component alone, by its `y` component alone) and
//! passes the cell each falls in; the answer says which part of the
//! displacement to apply.

use vstd::prelude::*;
use crate::world::{Cell, World};

verus! {

/// How much of a proposed displacement a move applies.
#[derive(Clone, Copy, Debug, PartialEq, Eq, Structural)]
pub enum Slide {
    /// The whole displacement.
    Full,
    /// Only its `x` component.
    OnlyX,
    /// Only its `y` component.
    OnlyY,
    /// None of it: the entity stays where it is.
    Blocked,
}

impl<const W: usize, const H: usize> World<W, H> {
    /// Whether a position that falls in `cell` collides: its tile is solid, or
    /// it has no tile. Everything off the grid counts as solid.
    pub open spec fn blocks(&self, cell: Option<Cell>) -> bool {
        match self.tile_under(cell) {
            Some(t) => t.solid(),
            None => true,
        }
    }

    /// The part of a displacement that is applied, from the cells of the
    /// current position and of the three candidate targets.
    pub open spec fn slide(
        &self,
        current: Option<Cell>,
        full: Option<Cell>,
        only_x: Option<Cell>,
        only_y: Option<Cell>,
    ) -> Slide {
        if self.blocks(current) || !self.blocks(full) {
            Slide::Full
        } else if !self.blocks(only_x) {
            Slide::OnlyX
        } else if !self.blocks(only_y) {
            Slide::OnlyY
        } else {
            Slide::Blocked
        }
    }

    /// Whether an entity at a position that falls in `cell` is inside
    /// something solid.
    pub fn is_colliding(&self, cell: Option<Cell>) -> (r: bool)
        ensures
            r == self.blocks(cell),
    {
        match self.tile_vec(cell) {
            Some(tile) => tile.is_solid(),
            None => true,
        }
    }

    /// Resolves a move by axis-separated sliding. `current` is the cell of the
    /// entity's position; `full`, `only_x` and `only_y` are the cells of the
    /// position displaced by the whole displacement, by its `x` component
    /// alone and by its `y` component alone.
    ///
    /// An entity already inside something solid moves freely. Otherwise the
    /// first of the whole displacement, its `x` part and its `y` part that
    /// lands clear of solid tiles is applied, and none if all three collide.
    pub fn resolve_movement(
        &self,
        current: Option<Cell>,
        full: Option<Cell>,
        only_x: Option<Cell>,
        only_y: Option<Cell>,
    ) -> (r: Slide)
        ensures
            r == self.slide(current, full, only_x, only_y),
    {
        if self.is_colliding(current) {
            Slide::Full
        } else if !self.is_colliding(full) {
            Slide::Full
        } else if !self.is_colliding(only_x) {
            Slide::OnlyX
        } else if !self.is_colliding(only_y) {
            Slide::OnlyY
        } else {
            Slide::Blocked
        }
    }
}

/// An entity whose position is already inside something solid, or off the
/// grid, moves freely: the whole displacement is applied, whatever the targets
/// are.
pub proof fn lemma_escapes_wall<const W: usize, const H: usize>(
    world: &World<W, H>,
    current: Option<Cell>,
    full: Option<Cell>,
    only_x: Option<Cell>,
    only_y: Option<Cell>,
)
    requires
        world.blocks(current),
    ensures
        world.slide(current, full, only_x, only_y) == Slide::Full,
{
}

/// A displacement that lands on a passable tile of the grid is applied
/// unmodified.
pub proof fn lemma_clear_move_is_whole<const W: usize, const H: usize>(
    world: &World<W, H>,
    current: Option<Cell>,
    full: Option<Cell>,
    only_x: Option<Cell>,
    only_y: Option<Cell>,
)
    requires
        !world.blocks(full),
    ensures
        world.slide(current, full, only_x, only_y) == Slide::Full,
{
}

/// On a grid without a solid tile every displacement that stays inside the
/// grid is applied unmodified.
pub proof fn lemma_all_air_moves_freely<const W: usize, const H: usize>(
    world: &World<W, H>,
    current: Option<Cell>,
    full: Cell,
    only_x: Option<Cell>,
    only_y: Option<Cell>,
)
    requires
        world.all_air(),
        World::<W, H>::in_grid(full.x as int, full.y as int),
    ensures
        world.slide(current, Some(full), only_x, only_y) == Slide::Full,
{
    assert(world@.contains_key((full.x as int, full.y as int)));
}

/// A move that is blocked as a whole slides along an open axis instead of
/// stopping dead: along `x` where the `x` part lands clear, else along `y`
/// where the `y` part does. It stops only where all three targets collide.
pub proof fn lemma_slides_along_open_axis<const W: usize, const H: usize>(
    world: &World<W, H>,
    current: Option<Cell>,
    full: Option<Cell>,
    only_x: Option<Cell>,
    only_y: Option<Cell>,
)
    requires
        !world.blocks(current),
        world.blocks(full),
    ensures
        !world.blocks(only_x) ==> world.slide(current, full, only_x, only_y) == Slide::OnlyX,
        world.blocks(only_x) && !world.blocks(only_y) ==> world.slide(current, full, only_x, only_y)
            == Slide::OnlyY,
        world.slide(current, full, only_x, only_y) == Slide::Blocked <==> world.blocks(only_x)
            && world.blocks(only_y),
{
}

/// Off the grid counts as solid for movement, while a scan merely stops
/// there: a position with no tile collides, and is no hit.
pub proof fn lemma_off_grid_blocks_but_is_no_hit<const W: usize, const H: usize>(
    world: &World<W, H>,
    cell: Option<Cell>,
)
    requires
        world.tile_under(cell).is_none(),
    ensures
        world.blocks(cell),
        world.scan(cell) is Exit,
{
}

} // verus!
