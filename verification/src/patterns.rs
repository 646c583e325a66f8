//! The colour rule of each pattern at one pixel. The caller computes where
//! the pixel lies and evaluates the blend that comes back.

use vstd::prelude::*;
use crate::bits::{abs_bits, below_zero, clamp_unit, is_below_zero, is_unit, magnitude};
use crate::colors::{hsv_interp, ColorHsv, Mix};

verus! {

/// The mirrored gradient at a pixel whose signed distance from the middle
/// of the strip is `bipolar` (-1 at the first pixel, 1 at the last): `end`
/// in the middle, `start` at both ends.
pub fn gradient_dual_at(start: &ColorHsv, end: &ColorHsv, bipolar: u32) -> (mix: Mix)
    ensures
        mix == (Mix { from: *end, to: *start, weight: clamp_unit(magnitude(bipolar)) }),
        is_unit(mix.weight),
{
    hsv_interp(end, start, abs_bits(bipolar))
}

/// The gradient over three colours at a pixel at `pos` (0 at the first
/// pixel, 1 at the last) whose signed distance from the middle is `bipolar`.
/// Before the middle the blend goes from `col2` towards `col1` by the
/// distance; from the middle on it goes from `col2` towards `col3` by `pos`.
pub fn gradient_triple_at(
    col1: &ColorHsv,
    col2: &ColorHsv,
    col3: &ColorHsv,
    pos: u32,
    bipolar: u32,
) -> (mix: Mix)
    ensures
        mix.from == *col2,
        below_zero(bipolar) ==> mix.to == *col1 && mix.weight == clamp_unit(magnitude(bipolar)),
        !below_zero(bipolar) ==> mix.to == *col3 && mix.weight == clamp_unit(pos),
        is_unit(mix.weight),
{
    if is_below_zero(bipolar) {
        hsv_interp(col2, col1, abs_bits(bipolar))
    } else {
        hsv_interp(col2, col3, pos)
    }
}

/// The wave at a pixel where the triangle wave has the height `triangle`
/// (from -1 to 1): below zero the blend goes from `col1` towards `col2`,
/// else towards `col3`, by the magnitude of the height.
pub fn sine_at(col1: &ColorHsv, col2: &ColorHsv, col3: &ColorHsv, triangle: u32) -> (mix: Mix)
    ensures
        mix.from == *col1,
        below_zero(triangle) ==> mix.to == *col2 && mix.weight == clamp_unit(magnitude(triangle)),
        !below_zero(triangle) ==> mix.to == *col3 && mix.weight == clamp_unit(triangle),
        is_unit(mix.weight),
{
    if is_below_zero(triangle) {
        hsv_interp(col1, col2, abs_bits(triangle))
    } else {
        hsv_interp(col1, col3, triangle)
    }
}

} // verus!
