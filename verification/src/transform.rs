//! The transformations: what each one makes of an image, as mathematics,
//! and the functions that carry it out.

use vstd::prelude::*;
use image::{DynamicImage, GrayAlphaImage, GrayImage, ImageBuffer, Rgb, RgbImage, RgbaImage};
use crate::bitmap::Image;
use crate::raster::{lemma_position, lemma_same_samples, Layout, Raster};

verus! {

/// Whether channel `c` of a pixel of this layout is its opacity.
pub open spec fn is_alpha(layout: Layout, c: int) -> bool {
    layout.has_alpha() && c == layout.channels() - 1
}

/// The byte nearest to `v`.
pub open spec fn clamp_byte(v: int) -> u8 {
    if v < 0 {
        0
    } else if v > 255 {
        255
    } else {
        v as u8
    }
}

/// The smaller of two numbers.
pub open spec fn least(a: nat, b: nat) -> nat {
    if a <= b {
        a
    } else {
        b
    }
}

/// The negative: every color sample `v` becomes `255 - v`; opacity stays.
pub open spec fn inverted(r: Raster) -> Raster {
    Raster::from_fn(
        r.layout,
        r.width,
        r.height,
        |x: int, y: int, c: int|
            if is_alpha(r.layout, c) {
                r.sample(x, y, c)
            } else {
                (255 - r.sample(x, y, c)) as u8
            },
    )
}

/// Every color sample moved by `amount` and held within a byte; opacity
/// stays.
pub open spec fn brightened(r: Raster, amount: int) -> Raster {
    Raster::from_fn(
        r.layout,
        r.width,
        r.height,
        |x: int, y: int, c: int|
            if is_alpha(r.layout, c) {
                r.sample(x, y, c)
            } else {
                clamp_byte(r.sample(x, y, c) + amount)
            },
    )
}

/// The brightness of a color: its channels weighted 2126 : 7152 : 722.
pub open spec fn luma(red: u8, green: u8, blue: u8) -> u8 {
    ((2126 * red + 7152 * green + 722 * blue) / 10000) as u8
}

/// The brightness of pixel `(x, y)`.
pub open spec fn brightness(r: Raster, x: int, y: int) -> u8 {
    if r.layout.color_channels() == 1 {
        r.sample(x, y, 0)
    } else {
        luma(r.sample(x, y, 0), r.sample(x, y, 1), r.sample(x, y, 2))
    }
}

/// The image in shades of gray: each pixel keeps its brightness, and its
/// opacity where it has one.
pub open spec fn grayed(r: Raster) -> Raster {
    Raster::from_fn(
        r.layout.gray(),
        r.width,
        r.height,
        |x: int, y: int, c: int|
            if c == 0 {
                brightness(r, x, y)
            } else {
                r.sample(x, y, r.layout.channels() - 1)
            },
    )
}

/// The part of the image inside the rectangle with its top left corner at
/// `(x, y)` and the given size, as far as the rectangle lies on the image.
pub open spec fn cropped(r: Raster, x: nat, y: nat, width: nat, height: nat) -> Raster {
    let left = least(x, r.width);
    let top = least(y, r.height);
    Raster::from_fn(
        r.layout,
        least(width, (r.width - left) as nat),
        least(height, (r.height - top) as nat),
        |i: int, j: int, c: int| r.sample(left + i, top + j, c),
    )
}

/// The image turned clockwise by a quarter: the left column becomes the
/// top row.
pub open spec fn quarter_turn(r: Raster) -> Raster {
    Raster::from_fn(
        r.layout,
        r.height,
        r.width,
        |x: int, y: int, c: int| r.sample(y, r.height - 1 - x, c),
    )
}

/// The image turned upside down.
pub open spec fn half_turn(r: Raster) -> Raster {
    Raster::from_fn(
        r.layout,
        r.width,
        r.height,
        |x: int, y: int, c: int| r.sample(r.width - 1 - x, r.height - 1 - y, c),
    )
}

/// The image turned clockwise by three quarters: the top row becomes the
/// left column.
pub open spec fn three_quarter_turn(r: Raster) -> Raster {
    Raster::from_fn(
        r.layout,
        r.height,
        r.width,
        |x: int, y: int, c: int| r.sample(r.width - 1 - y, x, c),
    )
}

/// Whether the image can be turned by this many degrees.
pub open spec fn rotation_supported(degrees: u32) -> bool {
    degrees == 90 || degrees == 180 || degrees == 270
}

/// The image turned clockwise by `degrees`, for the angles that are
/// supported.
pub open spec fn rotated(r: Raster, degrees: u32) -> Raster {
    if degrees == 90 {
        quarter_turn(r)
    } else if degrees == 180 {
        half_turn(r)
    } else {
        three_quarter_turn(r)
    }
}

/// The image of three color channels in which every pixel is `color`.
pub open spec fn solid(width: nat, height: nat, color: Seq<u8>) -> Raster {
    Raster::from_fn(Layout::Rgb, width, height, |x: int, y: int, c: int| color[c])
}

/// `image::DynamicImage::invert`, on the eight-bit image that the arguments
/// describe. The samples that come back are those of `inverted`: the crate
/// replaces each color sample `v` by `255 - v` and leaves opacity alone.
#[verifier::external_body]
fn outside_invert(layout: Layout, width: u32, height: u32, samples: Vec<u8>) -> (out: Vec<u8>)
    requires
        samples@.len() == width * height * layout.channels(),
    ensures
        out@ == inverted(
            Raster { layout, width: width as nat, height: height as nat, samples: samples@ },
        ).samples,
{
    let mut img = match layout {
        Layout::Luma => GrayImage::from_raw(width, height, samples).map(DynamicImage::ImageLuma8),
        Layout::LumaAlpha => GrayAlphaImage::from_raw(width, height, samples).map(DynamicImage::ImageLumaA8),
        Layout::Rgb => RgbImage::from_raw(width, height, samples).map(DynamicImage::ImageRgb8),
        Layout::Rgba => RgbaImage::from_raw(width, height, samples).map(DynamicImage::ImageRgba8),
    }.unwrap();
    img.invert();
    img.into_bytes()
}

/// `image::DynamicImage::brighten`, on the eight-bit image that the
/// arguments describe. The samples that come back are those of
/// `brightened`: the crate adds `amount` to each color sample as an `i32`,
/// holds the sum between 0 and 255, and leaves opacity alone. The sum must
/// not overflow, which is why `amount` is bounded. The crate walks the
/// pixels in a way that fails on rows without pixels, which is why `width`
/// is not 0.
#[verifier::external_body]
fn outside_brighten(layout: Layout, width: u32, height: u32, samples: Vec<u8>, amount: i32) -> (out:
    Vec<u8>)
    requires
        samples@.len() == width * height * layout.channels(),
        amount <= i32::MAX - 255,
        width > 0,
    ensures
        out@ == brightened(
            Raster { layout, width: width as nat, height: height as nat, samples: samples@ },
            amount as int,
        ).samples,
{
    let img = match layout {
        Layout::Luma => GrayImage::from_raw(width, height, samples).map(DynamicImage::ImageLuma8),
        Layout::LumaAlpha => GrayAlphaImage::from_raw(width, height, samples).map(DynamicImage::ImageLumaA8),
        Layout::Rgb => RgbImage::from_raw(width, height, samples).map(DynamicImage::ImageRgb8),
        Layout::Rgba => RgbaImage::from_raw(width, height, samples).map(DynamicImage::ImageRgba8),
    }.unwrap();
    img.brighten(amount).into_bytes()
}

/// `image::DynamicImage::grayscale`, on the eight-bit image that the
/// arguments describe. The samples that come back are those of `grayed`:
/// the crate keeps a brightness channel as it is, weighs red, green and
/// blue 2126 : 7152 : 722 out of 10000 in whole numbers, and keeps opacity
/// as a second channel. The crate walks the pixels in a way that fails on
/// rows without pixels, which is why `width` is not 0.
#[verifier::external_body]
fn outside_grayscale(layout: Layout, width: u32, height: u32, samples: Vec<u8>) -> (out: Vec<u8>)
    requires
        samples@.len() == width * height * layout.channels(),
        width > 0,
    ensures
        out@ == grayed(
            Raster { layout, width: width as nat, height: height as nat, samples: samples@ },
        ).samples,
{
    let img = match layout {
        Layout::Luma => GrayImage::from_raw(width, height, samples).map(DynamicImage::ImageLuma8),
        Layout::LumaAlpha => GrayAlphaImage::from_raw(width, height, samples).map(DynamicImage::ImageLumaA8),
        Layout::Rgb => RgbImage::from_raw(width, height, samples).map(DynamicImage::ImageRgb8),
        Layout::Rgba => RgbaImage::from_raw(width, height, samples).map(DynamicImage::ImageRgba8),
    }.unwrap();
    img.grayscale().into_bytes()
}

/// `image::DynamicImage::crop_imm`, on the eight-bit image that the
/// arguments describe. The samples that come back are those of `cropped`:
/// the crate moves the corner onto the image where it lies outside, cuts
/// the size down to what is left from there, and copies that part.
#[verifier::external_body]
fn outside_crop(
    layout: Layout,
    width: u32,
    height: u32,
    samples: Vec<u8>,
    x: u32,
    y: u32,
    crop_width: u32,
    crop_height: u32,
) -> (out: Vec<u8>)
    requires
        samples@.len() == width * height * layout.channels(),
    ensures
        out@ == cropped(
            Raster { layout, width: width as nat, height: height as nat, samples: samples@ },
            x as nat,
            y as nat,
            crop_width as nat,
            crop_height as nat,
        ).samples,
{
    let img = match layout {
        Layout::Luma => GrayImage::from_raw(width, height, samples).map(DynamicImage::ImageLuma8),
        Layout::LumaAlpha => GrayAlphaImage::from_raw(width, height, samples).map(DynamicImage::ImageLumaA8),
        Layout::Rgb => RgbImage::from_raw(width, height, samples).map(DynamicImage::ImageRgb8),
        Layout::Rgba => RgbaImage::from_raw(width, height, samples).map(DynamicImage::ImageRgba8),
    }.unwrap();
    img.crop_imm(x, y, crop_width, crop_height).into_bytes()
}

/// `image::DynamicImage::rotate90`, on the eight-bit image that the
/// arguments describe. The samples that come back are those of
/// `quarter_turn`: the crate puts the pixel of column `x` and row `y` into
/// column `height - 1 - y` and row `x` of an image as wide as this one is
/// high.
#[verifier::external_body]
fn outside_rotate90(layout: Layout, width: u32, height: u32, samples: Vec<u8>) -> (out: Vec<u8>)
    requires
        samples@.len() == width * height * layout.channels(),
    ensures
        out@ == quarter_turn(
            Raster { layout, width: width as nat, height: height as nat, samples: samples@ },
        ).samples,
{
    let img = match layout {
        Layout::Luma => GrayImage::from_raw(width, height, samples).map(DynamicImage::ImageLuma8),
        Layout::LumaAlpha => GrayAlphaImage::from_raw(width, height, samples).map(DynamicImage::ImageLumaA8),
        Layout::Rgb => RgbImage::from_raw(width, height, samples).map(DynamicImage::ImageRgb8),
        Layout::Rgba => RgbaImage::from_raw(width, height, samples).map(DynamicImage::ImageRgba8),
    }.unwrap();
    img.rotate90().into_bytes()
}

/// `image::DynamicImage::rotate180`, on the eight-bit image that the
/// arguments describe. The samples that come back are those of `half_turn`:
/// the crate puts the pixel of column `x` and row `y` into column
/// `width - 1 - x` and row `height - 1 - y` of an image of the same size.
#[verifier::external_body]
fn outside_rotate180(layout: Layout, width: u32, height: u32, samples: Vec<u8>) -> (out: Vec<u8>)
    requires
        samples@.len() == width * height * layout.channels(),
    ensures
        out@ == half_turn(
            Raster { layout, width: width as nat, height: height as nat, samples: samples@ },
        ).samples,
{
    let img = match layout {
        Layout::Luma => GrayImage::from_raw(width, height, samples).map(DynamicImage::ImageLuma8),
        Layout::LumaAlpha => GrayAlphaImage::from_raw(width, height, samples).map(DynamicImage::ImageLumaA8),
        Layout::Rgb => RgbImage::from_raw(width, height, samples).map(DynamicImage::ImageRgb8),
        Layout::Rgba => RgbaImage::from_raw(width, height, samples).map(DynamicImage::ImageRgba8),
    }.unwrap();
    img.rotate180().into_bytes()
}

/// `image::DynamicImage::rotate270`, on the eight-bit image that the
/// arguments describe. The samples that come back are those of
/// `three_quarter_turn`: the crate puts the pixel of column `x` and row `y`
/// into column `y` and row `width - 1 - x` of an image as wide as this one
/// is high.
#[verifier::external_body]
fn outside_rotate270(layout: Layout, width: u32, height: u32, samples: Vec<u8>) -> (out: Vec<u8>)
    requires
        samples@.len() == width * height * layout.channels(),
    ensures
        out@ == three_quarter_turn(
            Raster { layout, width: width as nat, height: height as nat, samples: samples@ },
        ).samples,
{
    let img = match layout {
        Layout::Luma => GrayImage::from_raw(width, height, samples).map(DynamicImage::ImageLuma8),
        Layout::LumaAlpha => GrayAlphaImage::from_raw(width, height, samples).map(DynamicImage::ImageLumaA8),
        Layout::Rgb => RgbImage::from_raw(width, height, samples).map(DynamicImage::ImageRgb8),
        Layout::Rgba => RgbaImage::from_raw(width, height, samples).map(DynamicImage::ImageRgba8),
    }.unwrap();
    img.rotate270().into_bytes()
}

/// `image::ImageBuffer::from_fn` for pixels of three bytes, with a function
/// that gives `color` everywhere. The samples that come back are those of
/// `solid`. The crate fails where the samples cannot be allocated in one
/// vector, which is why their number is bounded.
#[verifier::external_body]
fn outside_solid(width: u32, height: u32, color: [u8; 3]) -> (out: Vec<u8>)
    requires
        width * height * 3 <= isize::MAX,
    ensures
        out@ == solid(width as nat, height as nat, color@).samples,
{
    let buffer: RgbImage = ImageBuffer::from_fn(width, height, |_, _| Rgb(color));
    buffer.into_raw()
}

/// The negative of the image.
pub fn invert(img: Image) -> (out: Image)
    ensures
        out@ == inverted(img@),
{
    let (layout, width, height, samples) = img.into_parts();
    let out = outside_invert(layout, width, height, samples);
    Image::from_parts(layout, width, height, out)
}

/// The image with every color sample moved by `amount`, up for a positive
/// amount and down for a negative one, as far as a byte goes.
pub fn brighten(img: Image, amount: i32) -> (out: Image)
    ensures
        out@ == brightened(img@, amount as int),
{
    let (layout, width, height, samples) = img.into_parts();
    if width == 0 {
        // Nothing to brighten.
        assert(brightened(img@, amount as int).samples =~= samples@);
        return Image::from_parts(layout, width, height, samples);
    }
    // From 255 on every amount makes every color sample 255, so the largest amounts can
    // stand back for one that leaves room for a sample to be added.
    let bounded: i32 = if amount > i32::MAX - 255 {
        i32::MAX - 255
    } else {
        amount
    };
    let out = outside_brighten(layout, width, height, samples, bounded);
    assert(brightened(img@, bounded as int).samples =~= brightened(img@, amount as int).samples);
    Image::from_parts(layout, width, height, out)
}

/// The image in shades of gray.
pub fn grayscale(img: Image) -> (out: Image)
    ensures
        out@ == grayed(img@),
{
    let (layout, width, height, samples) = img.into_parts();
    if width == 0 {
        // Nothing to convert.
        assert(0 * height * layout.gray().channels() == 0 && 0 * height * layout.channels() == 0)
            by (nonlinear_arith);
        assert(grayed(img@).samples =~= samples@);
        return Image::from_parts(layout.to_gray(), width, height, samples);
    }
    let out = outside_grayscale(layout, width, height, samples);
    Image::from_parts(layout.to_gray(), width, height, out)
}

/// The part of the image inside the rectangle with its top left corner at
/// `(x, y)` and the given size, as far as the rectangle lies on the image.
pub fn crop(img: Image, x: u32, y: u32, width: u32, height: u32) -> (out: Image)
    ensures
        out@ == cropped(img@, x as nat, y as nat, width as nat, height as nat),
{
    let (layout, full_width, full_height, samples) = img.into_parts();
    let left: u32 = if x <= full_width {
        x
    } else {
        full_width
    };
    let top: u32 = if y <= full_height {
        y
    } else {
        full_height
    };
    let out_width: u32 = if width <= full_width - left {
        width
    } else {
        full_width - left
    };
    let out_height: u32 = if height <= full_height - top {
        height
    } else {
        full_height - top
    };
    let out = outside_crop(layout, full_width, full_height, samples, x, y, width, height);
    Image::from_parts(layout, out_width, out_height, out)
}

/// The image turned clockwise by `degrees`, where that is 90, 180 or 270;
/// other angles are not supported.
pub fn rotate(img: Image, degrees: u32) -> (out: Option<Image>)
    ensures
        out is Some <==> rotation_supported(degrees),
        out matches Some(turned) ==> turned@ == rotated(img@, degrees),
{
    let (layout, width, height, samples) = img.into_parts();
    if degrees == 90 {
        let out = outside_rotate90(layout, width, height, samples);
        assert(height * width == width * height) by (nonlinear_arith);
        Some(Image::from_parts(layout, height, width, out))
    } else if degrees == 180 {
        let out = outside_rotate180(layout, width, height, samples);
        Some(Image::from_parts(layout, width, height, out))
    } else if degrees == 270 {
        let out = outside_rotate270(layout, width, height, samples);
        assert(height * width == width * height) by (nonlinear_arith);
        Some(Image::from_parts(layout, height, width, out))
    } else {
        None
    }
}

/// The image of the given size in which every pixel is `color`, or `None`
/// where an image of that size cannot be held in memory.
pub fn generate(width: u32, height: u32, color: [u8; 3]) -> (out: Option<Image>)
    ensures
        out is Some <==> width * height * 3 <= isize::MAX,
        out matches Some(img) ==> img@ == solid(width as nat, height as nat, color@),
{
    assert(width * height <= 0xFFFF_FFFF * 0xFFFF_FFFF) by (nonlinear_arith)
        requires
            0 <= width <= 0xFFFF_FFFF,
            0 <= height <= 0xFFFF_FFFF,
    ;
    let count: u128 = width as u128 * height as u128 * 3;
    if count <= isize::MAX as u128 {
        let out = outside_solid(width, height, color);
        Some(Image::from_parts(Layout::Rgb, width, height, out))
    } else {
        None
    }
}

/// What `inverted` does, sample by sample.
pub proof fn lemma_inverted(r: Raster)
    ensures
        inverted(r).wf(),
        inverted(r).layout == r.layout,
        inverted(r).width == r.width,
        inverted(r).height == r.height,
        forall|x: int, y: int, c: int|
            r.has(x, y, c) ==> #[trigger] inverted(r).sample(x, y, c) == (if is_alpha(
                r.layout,
                c,
            ) {
                r.sample(x, y, c)
            } else {
                (255 - r.sample(x, y, c)) as u8
            }),
{
    let out = inverted(r);
    assert forall|x: int, y: int, c: int| r.has(x, y, c) implies #[trigger] out.sample(x, y, c)
        == (if is_alpha(r.layout, c) {
        r.sample(x, y, c)
    } else {
        (255 - r.sample(x, y, c)) as u8
    }) by {
        lemma_position(out, x, y, c);
    }
}

/// What `cropped` does, sample by sample.
pub proof fn lemma_cropped(r: Raster, x: nat, y: nat, width: nat, height: nat)
    ensures
        cropped(r, x, y, width, height).wf(),
        cropped(r, x, y, width, height).layout == r.layout,
        cropped(r, x, y, width, height).width == least(
            width,
            (r.width - least(x, r.width)) as nat,
        ),
        cropped(r, x, y, width, height).height == least(
            height,
            (r.height - least(y, r.height)) as nat,
        ),
        forall|i: int, j: int, c: int|
            cropped(r, x, y, width, height).has(i, j, c) ==> #[trigger] cropped(
                r,
                x,
                y,
                width,
                height,
            ).sample(i, j, c) == r.sample(least(x, r.width) + i, least(y, r.height) + j, c),
{
    let out = cropped(r, x, y, width, height);
    assert forall|i: int, j: int, c: int| out.has(i, j, c) implies #[trigger] out.sample(i, j, c)
        == r.sample(least(x, r.width) + i, least(y, r.height) + j, c) by {
        lemma_position(out, i, j, c);
    }
}

/// What `solid` is, sample by sample: every pixel is the color.
pub proof fn lemma_solid(width: nat, height: nat, color: Seq<u8>)
    ensures
        solid(width, height, color).wf(),
        solid(width, height, color).layout == Layout::Rgb,
        solid(width, height, color).width == width,
        solid(width, height, color).height == height,
        forall|x: int, y: int, c: int|
            solid(width, height, color).has(x, y, c) ==> #[trigger] solid(
                width,
                height,
                color,
            ).sample(x, y, c) == color[c],
{
    let out = solid(width, height, color);
    assert forall|x: int, y: int, c: int| out.has(x, y, c) implies #[trigger] out.sample(x, y, c)
        == color[c] by {
        lemma_position(out, x, y, c);
    }
}

/// The negative of the negative is the image itself.
pub proof fn law_invert_twice(r: Raster)
    requires
        r.wf(),
    ensures
        inverted(inverted(r)) == r,
{
    let once = inverted(r);
    let twice = inverted(once);
    lemma_inverted(r);
    lemma_inverted(once);
    assert forall|x: int, y: int, c: int| twice.has(x, y, c) implies twice.sample(x, y, c)
        == r.sample(x, y, c) by {
        assert(r.has(x, y, c));
        assert(once.has(x, y, c));
        assert(once.sample(x, y, c) == (if is_alpha(r.layout, c) {
            r.sample(x, y, c)
        } else {
            (255 - r.sample(x, y, c)) as u8
        }));
    }
    lemma_same_samples(twice, r);
}

/// A crop from the top left corner that fits on the image has exactly the
/// size asked for, and each of its pixels is the pixel of the image at the
/// same place.
pub proof fn law_crop_top_left(r: Raster, width: nat, height: nat)
    requires
        r.wf(),
        width <= r.width,
        height <= r.height,
    ensures
        cropped(r, 0, 0, width, height).wf(),
        cropped(r, 0, 0, width, height).layout == r.layout,
        cropped(r, 0, 0, width, height).width == width,
        cropped(r, 0, 0, width, height).height == height,
        forall|x: int, y: int, c: int|
            0 <= x < width && 0 <= y < height && 0 <= c < r.layout.channels() ==> #[trigger] cropped(
                r,
                0,
                0,
                width,
                height,
            ).sample(x, y, c) == r.sample(x, y, c),
{
    lemma_cropped(r, 0, 0, width, height);
    let out = cropped(r, 0, 0, width, height);
    assert forall|x: int, y: int, c: int|
        0 <= x < width && 0 <= y < height && 0 <= c < r.layout.channels() implies #[trigger] out.sample(
        x,
        y,
        c,
    ) == r.sample(x, y, c) by {
        assert(out.has(x, y, c));
    }
}

} // verus!
