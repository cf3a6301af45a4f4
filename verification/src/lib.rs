//! A verified layout engine for a constructed circular script.
//!
//! A word is parsed into letters (with digraph grouping), every consonant is
//! placed evenly around a ring, each letter becomes one of five base shapes
//! plus dot or line decorations, and the open shapes are stitched together by
//! connecting arcs. All geometry is carried as exact rational coordinates;
//! a rendering front end samples the resulting drawing descriptions into
//! Cartesian points.

pub mod layout;
pub mod letter_parts;
pub mod letters;
pub mod math_util;
