//! Conversion between the two length scales the library speaks:
//! hundredths of a millimetre and mils (thousandths of an inch).
//! One inch measures exactly 2540 hundredths of a millimetre, so each
//! direction is a rounded division by a fixed ratio.

use vstd::prelude::*;
use vstd::arithmetic::div_mod::{lemma_fundamental_div_mod, lemma_mod_bound};

verus! {

/// One inch, in hundredths of a millimetre.
pub const HUNDREDTHS_MM_PER_INCH: i64 = 2540;

/// One inch, in mils.
pub const MILS_PER_INCH: i64 = 1000;

/// Largest magnitude (on either scale) the executable conversions accept;
/// it keeps every intermediate product inside the machine word.
pub const CONVERT_LIMIT: i64 = 1_000_000_000;

/// The integer nearest to `n / d`, ties rounded away from zero.
pub open spec fn round_div(n: int, d: int) -> int
    recommends
        d > 0,
{
    if n >= 0 {
        (2 * n + d) / (2 * d)
    } else {
        -((2 * (-n) + d) / (2 * d))
    }
}

/// A length in hundredths of a millimetre, expressed in mils and rounded
/// to the nearest mil.
pub open spec fn spec_to_inch_mils(h: int) -> int {
    round_div(h * MILS_PER_INCH, HUNDREDTHS_MM_PER_INCH as int)
}

/// A length in mils, expressed in hundredths of a millimetre and rounded
/// to the nearest hundredth.
pub open spec fn spec_to_mm_hundredths(m: int) -> int {
    round_div(m * HUNDREDTHS_MM_PER_INCH, MILS_PER_INCH as int)
}

/// Convert a length from hundredths of a millimetre to mils.
pub fn to_inch_mils(hundredths_mm: i64) -> (r: i64)
    requires
        -CONVERT_LIMIT <= hundredths_mm <= CONVERT_LIMIT,
    ensures
        r == spec_to_inch_mils(hundredths_mm as int),
{
    if hundredths_mm >= 0 {
        let n: u64 = (hundredths_mm as u64) * 1000;
        let q: u64 = (2 * n + 2540) / 5080;
        q as i64
    } else {
        let n: u64 = ((-hundredths_mm) as u64) * 1000;
        let q: u64 = (2 * n + 2540) / 5080;
        -(q as i64)
    }
}

/// Convert a length from mils to hundredths of a millimetre.
pub fn to_mm_hundredths(mils: i64) -> (r: i64)
    requires
        -CONVERT_LIMIT <= mils <= CONVERT_LIMIT,
    ensures
        r == spec_to_mm_hundredths(mils as int),
{
    if mils >= 0 {
        let n: u64 = (mils as u64) * 2540;
        let q: u64 = (2 * n + 1000) / 2000;
        q as i64
    } else {
        let n: u64 = ((-mils) as u64) * 2540;
        let q: u64 = (2 * n + 1000) / 2000;
        -(q as i64)
    }
}

/// Round trip: converting a length to mils and back moves it by at most
/// one hundredth of a millimetre.
pub proof fn lemma_round_trip(h: int)
    ensures
        -1 <= spec_to_mm_hundredths(spec_to_inch_mils(h)) - h <= 1,
{
    if h >= 0 {
        let q1 = (2 * (h * 1000) + 2540) / 5080;
        let r1 = (2 * (h * 1000) + 2540) % 5080;
        lemma_fundamental_div_mod(2 * (h * 1000) + 2540, 5080);
        lemma_mod_bound(2 * (h * 1000) + 2540, 5080);
        assert(q1 >= 0);
        let q2 = (2 * (q1 * 2540) + 1000) / 2000;
        let r2 = (2 * (q1 * 2540) + 1000) % 2000;
        lemma_fundamental_div_mod(2 * (q1 * 2540) + 1000, 2000);
        lemma_mod_bound(2 * (q1 * 2540) + 1000, 2000);
        assert(2000 * (q2 - h) == 3540 - r1 - r2);
        assert(-1 <= q2 - h <= 1);
    } else {
        let k = -h;
        let q1 = (2 * (k * 1000) + 2540) / 5080;
        let r1 = (2 * (k * 1000) + 2540) % 5080;
        lemma_fundamental_div_mod(2 * (k * 1000) + 2540, 5080);
        lemma_mod_bound(2 * (k * 1000) + 2540, 5080);
        assert(q1 >= 0);
        let q2 = (2 * (q1 * 2540) + 1000) / 2000;
        let r2 = (2 * (q1 * 2540) + 1000) % 2000;
        lemma_fundamental_div_mod(2 * (q1 * 2540) + 1000, 2000);
        lemma_mod_bound(2 * (q1 * 2540) + 1000, 2000);
        assert(2000 * (q2 - k) == 3540 - r1 - r2);
        assert(-1 <= q2 - k <= 1);
        assert(spec_to_inch_mils(h) == -q1);
        if q1 == 0 {
            assert(spec_to_mm_hundredths(0) == 0);
        } else {
            assert(spec_to_mm_hundredths(-q1) == -q2);
        }
    }
}

} // verus!
