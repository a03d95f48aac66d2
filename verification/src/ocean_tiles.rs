//! Depth bands of the ocean-tile showcase zones: a linear gradient across
//! the zone and a broken natural edge whose band limits wobble per cell.

use vstd::prelude::*;
use crate::shore_distance::DepthBand;

verus! {

/// Band of column `x` in the linear gradient zone: deep through column 5,
/// mid through column 10, shallow beyond.
pub open spec fn spec_gradient_band(x: int) -> DepthBand {
    if x <= 5 {
        DepthBand::Deep
    } else if x <= 10 {
        DepthBand::Mid
    } else {
        DepthBand::Shallow
    }
}

/// Exec form of `spec_gradient_band`.
pub fn gradient_band(x: i32) -> (b: DepthBand)
    ensures
        b == spec_gradient_band(x as int),
{
    if x <= 5 {
        DepthBand::Deep
    } else if x <= 10 {
        DepthBand::Mid
    } else {
        DepthBand::Shallow
    }
}

/// Wobble of the deep limit at cell `(x, y)`, in -2..=2.
pub open spec fn deep_wobble(x: int, y: int) -> int {
    (x * 17 + y * 31) % 5 - 2
}

/// Wobble of the mid limit at cell `(x, y)`, in -2..=2.
pub open spec fn mid_wobble(x: int, y: int) -> int {
    (x * 11 + y * 7) % 5 - 2
}

/// Band of cell `(x, y)` in the broken-edge zone: deep down to row
/// `3 + deep_wobble`, mid down to row `6 + mid_wobble`, shallow below.
pub open spec fn spec_broken_edge_band(x: int, y: int) -> DepthBand {
    if y <= 3 + deep_wobble(x, y) {
        DepthBand::Deep
    } else if y <= 6 + mid_wobble(x, y) {
        DepthBand::Mid
    } else {
        DepthBand::Shallow
    }
}

/// Exec form of `spec_broken_edge_band`, for cells with non-negative
/// coordinates small enough for the wobble sums.
pub fn broken_edge_band(x: i32, y: i32) -> (b: DepthBand)
    requires
        0 <= x <= 1_000_000,
        0 <= y <= 1_000_000,
    ensures
        b == spec_broken_edge_band(x as int, y as int),
{
    let wobble_a: i32 = (x * 17 + y * 31) % 5 - 2;
    let wobble_b: i32 = (x * 11 + y * 7) % 5 - 2;
    let deep_limit: i32 = 3 + wobble_a;
    let mid_limit: i32 = 6 + wobble_b;
    if y <= deep_limit {
        DepthBand::Deep
    } else if y <= mid_limit {
        DepthBand::Mid
    } else {
        DepthBand::Shallow
    }
}

/// The broken edge keeps its bands in order down each column's wobble: the
/// top row is always deep, and rows past 8 are always shallow.
pub proof fn law_broken_edge_bands_bounded(x: int, y: int)
    requires
        0 <= x,
        0 <= y,
    ensures
        y == 0 ==> spec_broken_edge_band(x, y) == DepthBand::Deep,
        y > 8 ==> spec_broken_edge_band(x, y) == DepthBand::Shallow,
{
    assert(0 <= (x * 17 + y * 31) % 5 < 5);
    assert(0 <= (x * 11 + y * 7) % 5 < 5);
}

} // verus!
