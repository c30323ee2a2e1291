//! The size table: maps a hand-length reading to a mouse-size category
//! and to the recommendation text shown to the user.

use vstd::prelude::*;
use vstd::string::StringExecFns;

verus! {

/// Upper bound (exclusive) of the ExtraSmall band, in hundredths of a
/// millimetre: readings from 0 mm up to 160 mm.
pub const XS_UPPER: i64 = 16000;

/// Upper bound (exclusive) of the Small band: 1727 tenths of a millimetre.
pub const S_UPPER: i64 = 17270;

/// Lower bound (inclusive) of the Medium band: 1728 tenths of a millimetre.
/// The table leaves the single tenth between the Small and Medium bands
/// uncovered; a reading there is out of bounds.
pub const M_LOWER: i64 = 17280;

/// Upper bound (exclusive) of the Medium band and lower bound (inclusive)
/// of the Large band: 1957 tenths of a millimetre.
pub const M_UPPER: i64 = 19570;

/// Upper bound (exclusive) of the Large band: 2135 tenths of a millimetre.
pub const L_UPPER: i64 = 21350;

/// Lower bound (inclusive) of the ExtraLarge band: 2136 tenths of a
/// millimetre.  The single tenth below it is uncovered as well.
pub const XL_LOWER: i64 = 21360;

/// Recommended mouse dimension for the ExtraSmall and Small bands:
/// 113 mm, in hundredths of a millimetre.
pub const REC_SMALL: u32 = 11300;

/// Recommended mouse dimension for the Medium band: 1225 tenths of a
/// millimetre.
pub const REC_MEDIUM: u32 = 12250;

/// Recommended mouse dimension for the Large and ExtraLarge bands:
/// 1278 tenths of a millimetre.
pub const REC_LARGE: u32 = 12780;

/// A mouse-size recommendation: one of five ordered categories, each
/// carrying the recommended mouse dimension in hundredths of a millimetre,
/// or `OutOfBounds` for a reading that no band of the table covers.
#[derive(Clone, Copy, Debug, PartialEq, Eq, Structural)]
pub enum MouseSize {
    OutOfBounds,
    ExtraSmall(u32),
    Small(u32),
    Medium(u32),
    Large(u32),
    ExtraLarge(u32),
}

/// The size table over a hand length in hundredths of a millimetre.
/// The bands are tried in ascending order; a reading below zero or in one
/// of the two uncovered tenths falls through to `OutOfBounds`.
pub open spec fn spec_classify(h: int) -> MouseSize {
    if 0 <= h && h < XS_UPPER {
        MouseSize::ExtraSmall(REC_SMALL)
    } else if XS_UPPER <= h && h < S_UPPER {
        MouseSize::Small(REC_SMALL)
    } else if M_LOWER <= h && h < M_UPPER {
        MouseSize::Medium(REC_MEDIUM)
    } else if M_UPPER <= h && h < L_UPPER {
        MouseSize::Large(REC_LARGE)
    } else if XL_LOWER <= h {
        MouseSize::ExtraLarge(REC_LARGE)
    } else {
        MouseSize::OutOfBounds
    }
}

/// A reading is either a hand length in hundredths of a millimetre, or
/// `None` where the host had no finite number to offer; the latter is
/// never covered by a band.
pub open spec fn spec_classify_reading(reading: Option<i64>) -> MouseSize {
    match reading {
        Option::None => MouseSize::OutOfBounds,
        Option::Some(h) => spec_classify(h as int),
    }
}

/// Classify a hand-length reading.  `None` stands for a reading that is
/// not a finite number; it, a negative length, and a length in one of the
/// two uncovered tenths of the table all come back `OutOfBounds`.
pub fn classify(reading: Option<i64>) -> (r: MouseSize)
    ensures
        r == spec_classify_reading(reading),
{
    match reading {
        Option::None => MouseSize::OutOfBounds,
        Option::Some(h) => {
            if 0 <= h && h < XS_UPPER {
                MouseSize::ExtraSmall(REC_SMALL)
            } else if XS_UPPER <= h && h < S_UPPER {
                MouseSize::Small(REC_SMALL)
            } else if M_LOWER <= h && h < M_UPPER {
                MouseSize::Medium(REC_MEDIUM)
            } else if M_UPPER <= h && h < L_UPPER {
                MouseSize::Large(REC_LARGE)
            } else if XL_LOWER <= h {
                MouseSize::ExtraLarge(REC_LARGE)
            } else {
                MouseSize::OutOfBounds
            }
        },
    }
}

/// A reading below zero, in one of the two uncovered tenths of the
/// table, or absent altogether (`None`).
pub open spec fn out_of_bounds_reading(reading: Option<i64>) -> bool {
    match reading {
        Option::None => true,
        Option::Some(h) => h < 0 || (S_UPPER <= h && h < M_LOWER) || (L_UPPER <= h && h < XL_LOWER),
    }
}

/// Every reading from 0 mm up to (but not including) 160 mm is
/// ExtraSmall with a recommended dimension of 113 mm, and no other
/// reading is.
pub proof fn lemma_extra_small(h: int)
    ensures
        spec_classify(h) == MouseSize::ExtraSmall(REC_SMALL) <==> 0 <= h < XS_UPPER,
{
}

/// Every reading from 160 mm up to (but not including) 1727 tenths of a
/// millimetre is Small with a recommended dimension of 113 mm, and no
/// other reading is.
pub proof fn lemma_small(h: int)
    ensures
        spec_classify(h) == MouseSize::Small(REC_SMALL) <==> XS_UPPER <= h < S_UPPER,
{
}

/// Every reading from 1728 up to (but not including) 1957 tenths of a
/// millimetre is Medium with a recommended dimension of 1225 hundredths
/// of a millimetre, and no other reading is.
pub proof fn lemma_medium(h: int)
    ensures
        spec_classify(h) == MouseSize::Medium(REC_MEDIUM) <==> M_LOWER <= h < M_UPPER,
{
}

/// Every reading from 1957 up to (but not including) 2135 tenths of a
/// millimetre is Large with a recommended dimension of 1278 hundredths
/// of a millimetre, and no other reading is.
pub proof fn lemma_large(h: int)
    ensures
        spec_classify(h) == MouseSize::Large(REC_LARGE) <==> M_UPPER <= h < L_UPPER,
{
}

/// Every reading of 2136 tenths of a millimetre or more is ExtraLarge
/// with a recommended dimension of 1278 hundredths of a millimetre, and
/// no other reading is.
pub proof fn lemma_extra_large(h: int)
    ensures
        spec_classify(h) == MouseSize::ExtraLarge(REC_LARGE) <==> XL_LOWER <= h,
{
}

/// A reading comes back `OutOfBounds` exactly when it is negative, falls
/// in one of the two uncovered tenths of the table, or is no finite
/// number at all.
pub proof fn lemma_out_of_bounds(reading: Option<i64>)
    ensures
        spec_classify_reading(reading) == MouseSize::OutOfBounds <==> out_of_bounds_reading(
            reading,
        ),
{
}

/// The recommendation text for a reading: one fixed sentence per
/// category.  Each sentence names the recommended dimension in
/// millimetres and in inches; the inch figure is the millimetre one
/// divided by the inch ratio, written as the host's number formatting
/// prints it.
pub open spec fn spec_describe(reading: Option<i64>) -> Seq<char> {
    match spec_classify_reading(reading) {
        MouseSize::ExtraSmall(_) => "Mouse size is XS: choose mouse sizes smaller than 113 (mm) and 4.4488187 inches"@,
        MouseSize::Small(_) => "Mouse size is S: choose mouse sizes around 113 (mm) and 4.4488187 inches"@,
        MouseSize::Medium(_) => "Mouse size is M: choose mouse sizes around 122.5 (mm) and 4.822835 inches"@,
        MouseSize::Large(_) => "Mouse size is L: choose mouse sizes around 127.8 (mm) and 5.031496 inches"@,
        MouseSize::ExtraLarge(_) => "Mouse size is XL: choose mouse sizes larger than 127.8 (mm) and 5.031496 inches"@,
        MouseSize::OutOfBounds => "Hand size is out of bounds: no mouse size to recommend"@,
    }
}

/// Produce the recommendation text for a reading.
pub fn describe(reading: Option<i64>) -> (r: String)
    ensures
        r@ == spec_describe(reading),
{
    match classify(reading) {
        MouseSize::ExtraSmall(_) => String::from_str(
            "Mouse size is XS: choose mouse sizes smaller than 113 (mm) and 4.4488187 inches",
        ),
        MouseSize::Small(_) => String::from_str(
            "Mouse size is S: choose mouse sizes around 113 (mm) and 4.4488187 inches",
        ),
        MouseSize::Medium(_) => String::from_str(
            "Mouse size is M: choose mouse sizes around 122.5 (mm) and 4.822835 inches",
        ),
        MouseSize::Large(_) => String::from_str(
            "Mouse size is L: choose mouse sizes around 127.8 (mm) and 5.031496 inches",
        ),
        MouseSize::ExtraLarge(_) => String::from_str(
            "Mouse size is XL: choose mouse sizes larger than 127.8 (mm) and 5.031496 inches",
        ),
        MouseSize::OutOfBounds => String::from_str(
            "Hand size is out of bounds: no mouse size to recommend",
        ),
    }
}

} // verus!

