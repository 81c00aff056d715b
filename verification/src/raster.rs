//! The mathematical model of an image: a grid of pixels, each a fixed number
//! of eight-bit channels, stored row by row.

use vstd::prelude::*;
use vstd::arithmetic::div_mod::{lemma_fundamental_div_mod, lemma_fundamental_div_mod_converse};

verus! {

/// How many channels a pixel has and what they mean.
#[derive(Clone, Copy, Debug, PartialEq, Eq, Structural)]
pub enum Layout {
    /// One brightness channel.
    Luma,
    /// Brightness, then opacity.
    LumaAlpha,
    /// Red, green, blue.
    Rgb,
    /// Red, green, blue, then opacity.
    Rgba,
}

impl Layout {
    /// Channels per pixel.
    pub open spec fn channels(self) -> nat {
        match self {
            Layout::Luma => 1,
            Layout::LumaAlpha => 2,
            Layout::Rgb => 3,
            Layout::Rgba => 4,
        }
    }

    /// Whether the last channel of a pixel is its opacity.
    pub open spec fn has_alpha(self) -> bool {
        self == Layout::LumaAlpha || self == Layout::Rgba
    }

    /// Channels per pixel that carry color, which are the leading ones.
    pub open spec fn color_channels(self) -> nat {
        if self.has_alpha() {
            (self.channels() - 1) as nat
        } else {
            self.channels()
        }
    }

    /// The layout that a grayscale conversion produces: one brightness
    /// channel, and the opacity channel where there was one.
    pub open spec fn gray(self) -> Layout {
        if self.has_alpha() {
            Layout::LumaAlpha
        } else {
            Layout::Luma
        }
    }

    /// Channels per pixel.
    pub fn channel_count(self) -> (n: usize)
        ensures
            n == self.channels(),
    {
        match self {
            Layout::Luma => 1,
            Layout::LumaAlpha => 2,
            Layout::Rgb => 3,
            Layout::Rgba => 4,
        }
    }

    /// Whether the last channel of a pixel is its opacity.
    pub fn with_alpha(self) -> (b: bool)
        ensures
            b == self.has_alpha(),
    {
        match self {
            Layout::Luma => false,
            Layout::LumaAlpha => true,
            Layout::Rgb => false,
            Layout::Rgba => true,
        }
    }

    /// The layout that a grayscale conversion produces.
    pub fn to_gray(self) -> (g: Layout)
        ensures
            g == self.gray(),
    {
        match self {
            Layout::Luma => Layout::Luma,
            Layout::LumaAlpha => Layout::LumaAlpha,
            Layout::Rgb => Layout::Luma,
            Layout::Rgba => Layout::LumaAlpha,
        }
    }
}

/// An image as a value of mathematics. Sample `c` of the pixel in column `x`
/// and row `y` stands at position `(y * width + x) * channels + c`.
pub struct Raster {
    pub layout: Layout,
    pub width: nat,
    pub height: nat,
    pub samples: Seq<u8>,
}

impl Raster {
    /// There is exactly one sample for each channel of each pixel.
    pub open spec fn wf(self) -> bool {
        self.samples.len() == self.width * self.height * self.layout.channels()
    }

    /// Whether `(x, y, c)` names a sample of this image.
    pub open spec fn has(self, x: int, y: int, c: int) -> bool {
        0 <= x < self.width && 0 <= y < self.height && 0 <= c < self.layout.channels()
    }

    /// Where sample `c` of pixel `(x, y)` stands in `samples`.
    pub open spec fn position(self, x: int, y: int, c: int) -> int {
        (y * self.width + x) * self.layout.channels() + c
    }

    /// Sample `c` of pixel `(x, y)`.
    pub open spec fn sample(self, x: int, y: int, c: int) -> u8 {
        self.samples[self.position(x, y, c)]
    }

    /// The image of the given shape whose sample `c` of pixel `(x, y)` is
    /// `f(x, y, c)`.
    pub open spec fn from_fn(
        layout: Layout,
        width: nat,
        height: nat,
        f: spec_fn(int, int, int) -> u8,
    ) -> Raster {
        Raster {
            layout,
            width,
            height,
            samples: Seq::new(
                width * height * layout.channels(),
                |i: int|
                    f(
                        (i / layout.channels() as int) % width as int,
                        (i / layout.channels() as int) / width as int,
                        i % layout.channels() as int,
                    ),
            ),
        }
    }
}

/// A sample that the image has stands inside `samples`, and its position
/// determines its pixel and channel.
pub proof fn lemma_position(r: Raster, x: int, y: int, c: int)
    requires
        r.has(x, y, c),
    ensures
        0 <= r.position(x, y, c) < r.width * r.height * r.layout.channels(),
        r.position(x, y, c) % r.layout.channels() as int == c,
        r.position(x, y, c) / r.layout.channels() as int == y * r.width + x,
        (y * r.width + x) % r.width as int == x,
        (y * r.width + x) / r.width as int == y,
{
    let w = r.width as int;
    let h = r.height as int;
    let ch = r.layout.channels() as int;
    let p = y * w + x;
    assert(0 <= y * w) by (nonlinear_arith)
        requires
            0 <= y,
            0 <= w,
    ;
    assert(p < w * h) by (nonlinear_arith)
        requires
            p == y * w + x,
            0 <= x < w,
            0 <= y < h,
    ;
    assert(0 <= p * ch && p * ch + c < w * h * ch) by (nonlinear_arith)
        requires
            0 <= p < w * h,
            0 <= c < ch,
    ;
    lemma_fundamental_div_mod_converse(p * ch + c, ch, p, c);
    lemma_fundamental_div_mod_converse(p, w, y, x);
}

/// Every position inside `samples` is that of one sample of the image.
pub proof fn lemma_position_inverse(r: Raster, i: int)
    requires
        0 <= i < r.width * r.height * r.layout.channels(),
    ensures
        r.has(
            (i / r.layout.channels() as int) % r.width as int,
            (i / r.layout.channels() as int) / r.width as int,
            i % r.layout.channels() as int,
        ),
        r.position(
            (i / r.layout.channels() as int) % r.width as int,
            (i / r.layout.channels() as int) / r.width as int,
            i % r.layout.channels() as int,
        ) == i,
{
    let w = r.width as int;
    let h = r.height as int;
    let ch = r.layout.channels() as int;
    assert(w > 0) by (nonlinear_arith)
        requires
            0 <= i < w * h * ch,
            0 <= w,
    ;
    let p = i / ch;
    assert(i == ch * p + i % ch && 0 <= i % ch < ch) by {
        lemma_fundamental_div_mod(i, ch);
    }
    assert(0 <= p < w * h) by (nonlinear_arith)
        requires
            i == ch * p + i % ch,
            0 <= i % ch < ch,
            0 <= i < w * h * ch,
    ;
    assert(p == w * (p / w) + p % w && 0 <= p % w < w) by {
        lemma_fundamental_div_mod(p, w);
    }
    assert(0 <= p / w < h) by (nonlinear_arith)
        requires
            p == w * (p / w) + p % w,
            0 <= p % w < w,
            0 <= p < w * h,
    ;
    assert((p / w * w + p % w) * ch + i % ch == i) by (nonlinear_arith)
        requires
            p == w * (p / w) + p % w,
            i == ch * p + i % ch,
    ;
}

/// Two well-formed images of one shape that agree on every sample are the
/// same image.
pub proof fn lemma_same_samples(a: Raster, b: Raster)
    requires
        a.wf(),
        b.wf(),
        a.layout == b.layout,
        a.width == b.width,
        a.height == b.height,
        forall|x: int, y: int, c: int| a.has(x, y, c) ==> a.sample(x, y, c) == b.sample(x, y, c),
    ensures
        a == b,
{
    assert forall|i: int| 0 <= i < a.samples.len() implies a.samples[i] == b.samples[i] by {
        lemma_position_inverse(a, i);
        let ch = a.layout.channels() as int;
        let x = (i / ch) % a.width as int;
        let y = (i / ch) / a.width as int;
        let c = i % ch;
        assert(a.sample(x, y, c) == b.sample(x, y, c));
    }
    assert(a.samples =~= b.samples);
}

} // verus!
