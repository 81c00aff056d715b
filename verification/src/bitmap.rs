//! Images in memory: a layout, a width, a height and one byte for each
//! channel of each pixel.

use vstd::prelude::*;
use crate::raster::{lemma_position, Layout, Raster};

verus! {

/// How many samples an image of the given shape has, or `None` where that
/// many cannot be counted in a `usize`.
pub fn sample_count(layout: Layout, width: u32, height: u32) -> (count: Option<usize>)
    ensures
        count == (if width * height * layout.channels() <= usize::MAX {
            Some((width * height * layout.channels()) as usize)
        } else {
            None
        }),
{
    assert(width * height <= 0xFFFF_FFFF * 0xFFFF_FFFF) by (nonlinear_arith)
        requires
            0 <= width <= 0xFFFF_FFFF,
            0 <= height <= 0xFFFF_FFFF,
    ;
    let pixels: u64 = width as u64 * height as u64;
    let channels: u64 = layout.channel_count() as u64;
    assert(pixels * channels <= 4 * (0xFFFF_FFFF * 0xFFFF_FFFF)) by (nonlinear_arith)
        requires
            0 <= pixels <= 0xFFFF_FFFF * 0xFFFF_FFFF,
            1 <= channels <= 4,
    ;
    let total: u128 = pixels as u128 * channels as u128;
    if total <= usize::MAX as u128 {
        Some(total as usize)
    } else {
        None
    }
}

/// An image held in memory.
#[derive(Debug, PartialEq, Eq)]
pub struct Image {
    layout: Layout,
    width: u32,
    height: u32,
    samples: Vec<u8>,
}

impl View for Image {
    type V = Raster;

    closed spec fn view(&self) -> Raster {
        Raster {
            layout: self.layout,
            width: self.width as nat,
            height: self.height as nat,
            samples: self.samples@,
        }
    }
}

impl Clone for Image {
    /// A second image with the same shape and samples.
    fn clone(&self) -> (copy: Image)
        ensures
            copy@ == self@,
    {
        proof {
            use_type_invariant(self);
        }
        let samples = self.samples.clone();
        assert(samples@ =~= self.samples@);
        Image { layout: self.layout, width: self.width, height: self.height, samples }
    }
}

impl Image {
    #[verifier::type_invariant]
    closed spec fn well_formed(self) -> bool {
        self.samples@.len() == self.width * self.height * self.layout.channels()
    }

    /// The image with the given shape and samples, where there is one sample
    /// for each channel of each pixel; `None` where the count is another.
    pub fn new(layout: Layout, width: u32, height: u32, samples: Vec<u8>) -> (image: Option<Image>)
        ensures
            image is Some <==> samples@.len() == width * height * layout.channels(),
            image matches Some(img) ==> img@ == (Raster {
                layout,
                width: width as nat,
                height: height as nat,
                samples: samples@,
            }),
    {
        assert(samples@.len() == samples.len());
        match sample_count(layout, width, height) {
            Some(count) => {
                if samples.len() == count {
                    Some(Image { layout, width, height, samples })
                } else {
                    None
                }
            },
            None => None,
        }
    }

    /// The image with the given shape and samples.
    pub fn from_parts(layout: Layout, width: u32, height: u32, samples: Vec<u8>) -> (image: Image)
        requires
            samples@.len() == width * height * layout.channels(),
        ensures
            image@ == (Raster {
                layout,
                width: width as nat,
                height: height as nat,
                samples: samples@,
            }),
    {
        Image { layout, width, height, samples }
    }

    /// Takes the image apart into its layout, width, height and samples.
    pub fn into_parts(self) -> (parts: (Layout, u32, u32, Vec<u8>))
        ensures
            self@.wf(),
            self@ == (Raster {
                layout: parts.0,
                width: parts.1 as nat,
                height: parts.2 as nat,
                samples: parts.3@,
            }),
    {
        proof {
            use_type_invariant(&self);
        }
        (self.layout, self.width, self.height, self.samples)
    }

    /// The layout of the pixels.
    pub fn layout(&self) -> (layout: Layout)
        ensures
            layout == self@.layout,
    {
        self.layout
    }

    /// The number of columns.
    pub fn width(&self) -> (width: u32)
        ensures
            width == self@.width,
    {
        self.width
    }

    /// The number of rows.
    pub fn height(&self) -> (height: u32)
        ensures
            height == self@.height,
    {
        self.height
    }

    /// The samples, row by row, pixel by pixel, channel by channel.
    pub fn samples(&self) -> (samples: &Vec<u8>)
        ensures
            samples@ == self@.samples,
            self@.wf(),
    {
        proof {
            use_type_invariant(self);
        }
        &self.samples
    }

    /// Sample `c` of the pixel in column `x` and row `y`, where the image
    /// has one there.
    pub fn sample(&self, x: u32, y: u32, c: usize) -> (value: Option<u8>)
        ensures
            value == (if self@.has(x as int, y as int, c as int) {
                Some(self@.sample(x as int, y as int, c as int))
            } else {
                None
            }),
    {
        proof {
            use_type_invariant(self);
        }
        let channels = self.layout.channel_count();
        if x < self.width && y < self.height && c < channels {
            proof {
                lemma_position(self@, x as int, y as int, c as int);
            }
            assert(0 <= y * self.width <= (y * self.width + x) * channels) by (nonlinear_arith)
                requires
                    0 <= y,
                    0 <= self.width,
                    0 <= x,
                    1 <= channels,
            ;
            assert(y * self.width + x <= (y * self.width + x) * channels) by (nonlinear_arith)
                requires
                    0 <= y * self.width + x,
                    1 <= channels,
            ;
            assert(self.samples@.len() == self.samples.len());
            let pixel: usize = y as usize * self.width as usize + x as usize;
            Some(self.samples[pixel * channels + c])
        } else {
            None
        }
    }
}

} // verus!
