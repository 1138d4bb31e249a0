//! Height fields for square terrain chunks.
//!
//! A chunk covers a 16 x 16 block of integer world cells. The library lays the
//! sampling lattice of a chunk out in world space, so that neighbouring chunks
//! sample one continuous field, and fills a chunk's field from a sampler
//! (`grid`). It also builds the fractal noise source that terrain is sampled
//! from (`fractal`).
pub mod fractal;
pub mod grid;

pub use fractal::{fractal_noise_source, HEIGHT_MAX, HEIGHT_MIN, OCTAVE_COUNT};
pub use grid::{fill_chunk_field, world_coordinate, CHUNK_SIZE};
