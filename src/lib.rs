//! Coordinate-based resampling of three-dimensional scalar volumes.
//!
//! A [`Volume`] is a dense row-major grid of voxels. A [`Sampler`] reads an
//! input volume at a list of integer coordinates and lays the sampled values
//! out as a new volume of a requested shape. [`NearestNeighbor`] is the
//! order-zero sampler, with an out-of-sample policy chosen by [`Mode`].
use vstd::prelude::*;

pub mod sampler;
pub mod volume;

pub use sampler::{Coord, Mode, NearestNeighbor, Sampler};
pub use volume::{SampleError, Volume};
