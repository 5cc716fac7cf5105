//! The decision core of a grid raycaster: a fixed grid of tiles, what a ray
//! scan does at each cell it reaches, which face a hit shows, and how a move
//! slides along walls. Positions arrive as the grid cells they fall in; the
//! arithmetic on continuous coordinates is the caller's.

pub mod collision;
pub mod direction;
pub mod raycast;
pub mod tile;
pub mod world;
