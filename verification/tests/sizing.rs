use mouse_size::sizing::{classify, describe, MouseSize};

#[test]
fn extra_small_band() {
    assert_eq!(classify(Some(0)), MouseSize::ExtraSmall(11300));
    assert_eq!(classify(Some(10000)), MouseSize::ExtraSmall(11300));
    assert_eq!(classify(Some(15999)), MouseSize::ExtraSmall(11300));
}

#[test]
fn small_band() {
    assert_eq!(classify(Some(16000)), MouseSize::Small(11300));
    assert_eq!(classify(Some(17000)), MouseSize::Small(11300));
    assert_eq!(classify(Some(17269)), MouseSize::Small(11300));
}

#[test]
fn medium_band() {
    assert_eq!(classify(Some(17280)), MouseSize::Medium(12250));
    assert_eq!(classify(Some(18000)), MouseSize::Medium(12250));
    assert_eq!(classify(Some(19569)), MouseSize::Medium(12250));
}

#[test]
fn large_band() {
    assert_eq!(classify(Some(19570)), MouseSize::Large(12780));
    assert_eq!(classify(Some(21000)), MouseSize::Large(12780));
    assert_eq!(classify(Some(21349)), MouseSize::Large(12780));
}

#[test]
fn extra_large_band() {
    assert_eq!(classify(Some(21360)), MouseSize::ExtraLarge(12780));
    assert_eq!(classify(Some(1_000_000)), MouseSize::ExtraLarge(12780));
    assert_eq!(classify(Some(i64::MAX)), MouseSize::ExtraLarge(12780));
}

#[test]
fn out_of_bounds_readings() {
    // The uncovered tenth between the Small and Medium bands.
    assert_eq!(classify(Some(17275)), MouseSize::OutOfBounds);
    assert_eq!(classify(Some(17270)), MouseSize::OutOfBounds);
    assert_eq!(classify(Some(17279)), MouseSize::OutOfBounds);
    // The uncovered tenth between the Large and ExtraLarge bands.
    assert_eq!(classify(Some(21350)), MouseSize::OutOfBounds);
    assert_eq!(classify(Some(21359)), MouseSize::OutOfBounds);
    // Negative lengths.
    assert_eq!(classify(Some(-500)), MouseSize::OutOfBounds);
    assert_eq!(classify(Some(i64::MIN)), MouseSize::OutOfBounds);
    // A reading that was no finite number.
    assert_eq!(classify(None), MouseSize::OutOfBounds);
}

#[test]
fn describe_hundred_mm() {
    assert_eq!(
        describe(Some(10000)),
        "Mouse size is XS: choose mouse sizes smaller than 113 (mm) and 4.4488187 inches"
    );
}

#[test]
fn describe_one_hundred_eighty_mm() {
    assert_eq!(
        describe(Some(18000)),
        "Mouse size is M: choose mouse sizes around 122.5 (mm) and 4.822835 inches"
    );
}

#[test]
fn describe_gap_reading() {
    assert_eq!(
        describe(Some(17275)),
        "Hand size is out of bounds: no mouse size to recommend"
    );
    assert_eq!(
        describe(None),
        "Hand size is out of bounds: no mouse size to recommend"
    );
}

#[test]
fn describe_small_and_large_bands() {
    assert_eq!(
        describe(Some(16500)),
        "Mouse size is S: choose mouse sizes around 113 (mm) and 4.4488187 inches"
    );
    assert_eq!(
        describe(Some(20000)),
        "Mouse size is L: choose mouse sizes around 127.8 (mm) and 5.031496 inches"
    );
    assert_eq!(
        describe(Some(22000)),
        "Mouse size is XL: choose mouse sizes larger than 127.8 (mm) and 5.031496 inches"
    );
}

// The Large and ExtraLarge sentences carry the 127.8 mm recommendation
// divided by 25.4, printed by the default single-precision formatting.
#[test]
fn large_inch_figure_matches_float_division() {
    let l_inches = 127.8f32 / 25.4f32;
    assert_eq!(
        describe(Some(20000)),
        format!(
            "Mouse size is L: choose mouse sizes around {} (mm) and {} inches",
            127.8f32, l_inches
        )
    );
    assert_eq!(
        describe(Some(22000)),
        format!(
            "Mouse size is XL: choose mouse sizes larger than {} (mm) and {} inches",
            127.8f32, l_inches
        )
    );
}
