//! The renderer's colour lookup: a quantized noise value in `0..8`
//! maps to a fixed RGB triple, and every other bucket falls back to
//! black.

use vstd::prelude::*;

verus! {

/// The fixed bucket-to-colour table: buckets 0..8 have defined
/// colours (low buckets deep blue, rising through cyan and sand to
/// green), and any bucket outside that range is black.
pub open spec fn color_spec(bucket: u8) -> (u8, u8, u8) {
    if bucket <= 1 {
        (0u8, 6u8, 180u8)
    } else if bucket == 2 {
        (0u8, 66u8, 210u8)
    } else if bucket == 3 {
        (0u8, 185u8, 255u8)
    } else if bucket == 4 {
        (0u8, 234u8, 255u8)
    } else if bucket == 5 {
        (255u8, 239u8, 163u8)
    } else if bucket == 6 {
        (166u8, 255u8, 125u8)
    } else if bucket == 7 {
        (166u8, 255u8, 125u8)
    } else {
        (0u8, 0u8, 0u8)
    }
}

/// Map a quantized noise bucket to its RGB triple.
pub fn color(bucket: u8) -> (c: (u8, u8, u8))
    ensures
        c == color_spec(bucket),
{
    match bucket {
        0 => (0, 6, 180),
        1 => (0, 6, 180),
        2 => (0, 66, 210),
        3 => (0, 185, 255),
        4 => (0, 234, 255),
        5 => (255, 239, 163),
        6 => (166, 255, 125),
        7 => (166, 255, 125),
        _ => (0, 0, 0),
    }
}

} // verus!
