//! Acquisition and styling of vector map tiles served from a tile archive.
//!
//! * [`pyramid`]: the levels of detail of the square web-mercator tile pyramid.
//! * [`loader`]: the per-tile pipeline (fetch, decompress, decode) as explicit
//!   states, with its three failure kinds.
//! * [`style`]: first-match resolution of style rules against a feature.
use vstd::prelude::*;

pub mod loader;
pub mod pyramid;
pub mod style;

verus! {

} // verus!
