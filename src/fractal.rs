use noise::{Fbm, MultiFractal, Perlin};
use vstd::prelude::*;

verus! {

/// The number of octaves that the fractal noise source sums.
pub const OCTAVE_COUNT: usize = 15;

/// The height that a noise value of -1 maps to.
pub const HEIGHT_MIN: i64 = -64;

/// The height that a noise value of 1 maps to.
pub const HEIGHT_MAX: i64 = 320;

/// The most octaves that `Fbm` sums; `set_octaves` clamps a larger count to it.
const FBM_MAX_OCTAVES: usize = 32;

#[verifier::external_type_specification]
#[verifier::external_body]
#[verifier::reject_recursive_types(T)]
pub struct ExFbm<T>(Fbm<T>);

#[verifier::external_type_specification]
#[verifier::external_body]
pub struct ExPerlin(Perlin);

/// The seed of a fractal source, as `Seedable::seed` reports it.
pub uninterp spec fn fbm_seed(source: Fbm<Perlin>) -> u32;

/// The number of octaves that a fractal source sums, its `octaves` field.
pub uninterp spec fn fbm_octaves(source: Fbm<Perlin>) -> usize;

/// Relies on `noise::Fbm::new`: a fractional Brownian motion source over
/// Perlin noise, seeded with `seed`, with the crate's default six octaves.
/// Its octave sources are seeded `seed`, `seed + 1`, ..., `seed + 5` with a
/// plain `u32` addition, which must not overflow.
#[verifier::external_body]
fn fbm_perlin(seed: u32) -> (r: Fbm<Perlin>)
    requires
        seed as int + 6 <= u32::MAX as int + 1,
    ensures
        fbm_seed(r) == seed,
        fbm_octaves(r) == 6,
{
    Fbm::<Perlin>::new(seed)
}

/// Relies on `MultiFractal::set_octaves` for `Fbm`: the same source, with the
/// same seed, summing `octaves` octaves. A count in [1, 32] is taken as it is,
/// not clamped. The octave sources are rebuilt with seeds `seed + i` for each
/// octave `i`, a plain `u32` addition that must not overflow.
#[verifier::external_body]
fn fbm_with_octaves(source: Fbm<Perlin>, octaves: usize) -> (r: Fbm<Perlin>)
    requires
        1 <= octaves <= FBM_MAX_OCTAVES,
        fbm_seed(source) as int + octaves <= u32::MAX as int + 1,
    ensures
        fbm_seed(r) == fbm_seed(source),
        fbm_octaves(r) == octaves,
{
    source.set_octaves(octaves)
}

/// The fractal noise source that terrain heights are drawn from: Perlin-based
/// fractional Brownian motion seeded with `seed`, summing `OCTAVE_COUNT`
/// octaves. A fresh source is built on every call. Each octave is seeded with
/// `seed` plus its index, so the seed must leave room for `OCTAVE_COUNT`
/// consecutive `u32` values.
pub fn fractal_noise_source(seed: u32) -> (r: Fbm<Perlin>)
    requires
        seed as int + OCTAVE_COUNT <= u32::MAX as int + 1,
    ensures
        fbm_seed(r) == seed,
        fbm_octaves(r) == OCTAVE_COUNT,
{
    let source = fbm_perlin(seed);
    fbm_with_octaves(source, OCTAVE_COUNT)
}

} // verus!
