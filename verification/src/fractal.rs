//! The colors of the fractal: how the number of steps that a point took
//! becomes the color of its pixel.

use vstd::prelude::*;

verus! {

/// The fractal is this many pixels wide.
pub const FRACTAL_WIDTH: u32 = 9000;

/// The fractal is this many pixels high.
pub const FRACTAL_HEIGHT: u32 = 9000;

/// A point is followed for at most this many steps.
pub const FRACTAL_STEPS: u32 = 255;

/// The color of a pixel whose point took `count` steps: red is the count,
/// green twice the count and blue five times the count, each as far as a
/// byte goes round.
pub open spec fn banded(count: nat) -> Seq<u8> {
    seq![(count % 256) as u8, ((count * 2) % 256) as u8, ((count * 5) % 256) as u8]
}

/// The color of a pixel whose point took `count` steps.
pub fn fractal_color(count: u32) -> (color: [u8; 3])
    ensures
        color@ == banded(count as nat),
{
    let n: u64 = count as u64;
    let color = [(n % 256) as u8, ((n * 2) % 256) as u8, ((n * 5) % 256) as u8];
    assert(color@ =~= banded(count as nat));
    color
}

} // verus!
