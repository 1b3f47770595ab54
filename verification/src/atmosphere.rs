//! The geometric half of the piecewise-exponential atmosphere model: which
//! of the 27 reference layers an altitude falls in, with altitudes clamped
//! to the table's range.
//!
//! Altitudes are in metres above the body's surface. The density itself is
//! `r[i] * exp(-(z - h[i]) / H[i])` over the base density and scale height
//! of the selected layer `i`; those two tables are real-valued and belong
//! to the collaborator that evaluates the exponential.

use vstd::prelude::*;

verus! {

/// An altitude clamped to the table's range, 0 m to 1 000 000 m. Altitudes
/// outside the range are deliberately clamped, never rejected.
pub open spec fn clamped(altitude_m: int) -> int {
    if altitude_m > 1_000_000 {
        1_000_000
    } else if altitude_m < 0 {
        0
    } else {
        altitude_m
    }
}

/// The lower edge `h[i]` of reference layer `i`, in metres.
pub open spec fn layer_lower(i: int) -> int
    recommends
        0 <= i <= 27,
{
    if i <= 0 { 0 }
    else if i == 1 { 25_000 }
    else if i == 2 { 30_000 }
    else if i == 3 { 40_000 }
    else if i == 4 { 50_000 }
    else if i == 5 { 60_000 }
    else if i == 6 { 70_000 }
    else if i == 7 { 80_000 }
    else if i == 8 { 90_000 }
    else if i == 9 { 100_000 }
    else if i == 10 { 110_000 }
    else if i == 11 { 120_000 }
    else if i == 12 { 130_000 }
    else if i == 13 { 140_000 }
    else if i == 14 { 150_000 }
    else if i == 15 { 180_000 }
    else if i == 16 { 200_000 }
    else if i == 17 { 250_000 }
    else if i == 18 { 300_000 }
    else if i == 19 { 350_000 }
    else if i == 20 { 400_000 }
    else if i == 21 { 450_000 }
    else if i == 22 { 500_000 }
    else if i == 23 { 600_000 }
    else if i == 24 { 700_000 }
    else if i == 25 { 800_000 }
    else if i == 26 { 900_000 }
    else { 1_000_000 }
}

/// The layer a clamped altitude `z` falls in: the `i` with
/// `h[i] <= z < h[i+1]`, and layer 26 for the top of the table.
pub open spec fn layer_of(z: int) -> int
    recommends
        0 <= z <= 1_000_000,
{
    if z < 25_000 { 0 }
    else if z < 30_000 { 1 }
    else if z < 40_000 { 2 }
    else if z < 50_000 { 3 }
    else if z < 60_000 { 4 }
    else if z < 70_000 { 5 }
    else if z < 80_000 { 6 }
    else if z < 90_000 { 7 }
    else if z < 100_000 { 8 }
    else if z < 110_000 { 9 }
    else if z < 120_000 { 10 }
    else if z < 130_000 { 11 }
    else if z < 140_000 { 12 }
    else if z < 150_000 { 13 }
    else if z < 180_000 { 14 }
    else if z < 200_000 { 15 }
    else if z < 250_000 { 16 }
    else if z < 300_000 { 17 }
    else if z < 350_000 { 18 }
    else if z < 400_000 { 19 }
    else if z < 450_000 { 20 }
    else if z < 500_000 { 21 }
    else if z < 600_000 { 22 }
    else if z < 700_000 { 23 }
    else if z < 800_000 { 24 }
    else if z < 900_000 { 25 }
    else { 26 }
}

/// Returns the lower edge `h[i]` of reference layer `i`, in metres.
pub fn layer_base_m(i: usize) -> (r: i64)
    requires
        i < 28,
    ensures
        r == layer_lower(i as int),
{
    if i == 0 { 0 }
    else if i == 1 { 25_000 }
    else if i == 2 { 30_000 }
    else if i == 3 { 40_000 }
    else if i == 4 { 50_000 }
    else if i == 5 { 60_000 }
    else if i == 6 { 70_000 }
    else if i == 7 { 80_000 }
    else if i == 8 { 90_000 }
    else if i == 9 { 100_000 }
    else if i == 10 { 110_000 }
    else if i == 11 { 120_000 }
    else if i == 12 { 130_000 }
    else if i == 13 { 140_000 }
    else if i == 14 { 150_000 }
    else if i == 15 { 180_000 }
    else if i == 16 { 200_000 }
    else if i == 17 { 250_000 }
    else if i == 18 { 300_000 }
    else if i == 19 { 350_000 }
    else if i == 20 { 400_000 }
    else if i == 21 { 450_000 }
    else if i == 22 { 500_000 }
    else if i == 23 { 600_000 }
    else if i == 24 { 700_000 }
    else if i == 25 { 800_000 }
    else if i == 26 { 900_000 }
    else { 1_000_000 }
}

/// Clamps an altitude to the table's range and returns the index of the
/// layer it falls in. The result depends on the altitude only through its
/// clamped value, so any altitude above the table yields the top layer and
/// any altitude below it yields the bottom one.
pub fn layer_index(altitude_m: i64) -> (i: usize)
    ensures
        i < 27,
        i as int == layer_of(clamped(altitude_m as int)),
        layer_lower(i as int) <= clamped(altitude_m as int),
        clamped(altitude_m as int) < layer_lower(i as int + 1)
            || clamped(altitude_m as int) == 1_000_000,
{
    let mut z = altitude_m;
    if z > 1_000_000 {
        z = 1_000_000;
    } else if z < 0 {
        z = 0;
    }
    let mut i: usize = 0;
    while i < 26 && z >= layer_base_m(i + 1)
        invariant
            z == clamped(altitude_m as int),
            0 <= z <= 1_000_000,
            i <= 26,
            layer_lower(i as int) <= z,
        decreases 26 - i,
    {
        i = i + 1;
    }
    i
}

/// Clamping from above: every altitude at or beyond the table's top is
/// treated as the top altitude.
pub proof fn lemma_clamped_above(altitude_m: int)
    requires
        altitude_m >= 1_000_000,
    ensures
        clamped(altitude_m) == clamped(1_000_000),
{
}

/// Clamping from below: every altitude at or beneath the table's bottom is
/// treated as altitude zero.
pub proof fn lemma_clamped_below(altitude_m: int)
    requires
        altitude_m <= 0,
    ensures
        clamped(altitude_m) == clamped(0),
{
}

} // verus!
