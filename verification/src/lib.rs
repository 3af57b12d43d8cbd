//! Core model of an animated vector-field grid.
//!
//! A uniform grid of cells covers a viewport; each cell holds a value that is
//! recomputed every frame from a multi-channel noise field sampled at the
//! cell's draw-space position. This crate owns the grid container (sizing,
//! row-major indexing, draw-space positions, whole-grid update) and the
//! bookkeeping that keeps the noise channels apart; the floating-point
//! sampling and rendering live with the embedding application.

use vstd::prelude::*;

pub mod channel;
pub mod grid;

verus! {

/// Distance in pixels between neighbouring grid cells.
pub const PX_BETWEEN_VECS: usize = 20;

} // verus!
