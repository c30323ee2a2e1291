//! Hand-size to mouse-size recommendation.
//!
//! The library classifies a hand-length reading into one of five ordered
//! mouse-size categories (or reports that the reading is out of bounds),
//! produces the recommendation text for it, and converts lengths between
//! millimetre and inch scales.  All lengths are carried as integers at a
//! fixed resolution: hundredths of a millimetre for hand sizes and
//! recommended mouse dimensions, mils (thousandths of an inch) on the inch
//! side.  A host application collects the reading, rounds it to that
//! resolution, and renders the returned text.

pub mod convert;
pub mod sizing;
