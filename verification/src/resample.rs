//! Resampling of interleaved 8-bit rasters with a Lanczos filter.

use vstd::prelude::*;

verus! {

/// How the samples of one pixel are laid out.
#[derive(Clone, Copy, Debug)]
pub enum Layout {
    /// One grey sample.
    Luma,
    /// Red, green, blue.
    Rgb,
    /// Red, green, blue, alpha.
    Rgba,
}

impl Layout {
    /// Samples per pixel.
    pub open spec fn channels(self) -> int {
        match self {
            Layout::Luma => 1,
            Layout::Rgb => 3,
            Layout::Rgba => 4,
        }
    }
}

/// A `width` by `height` grid of four-channel 32-bit samples can be allocated.
pub open spec fn grid_fits(width: int, height: int) -> bool {
    32 * (width * height) <= usize::MAX
}

/// Every buffer that resampling from `width` by `height` to `new_width` by
/// `new_height` allocates can be allocated: the source, the intermediate
/// grid of `width` by `new_height`, and the result.
pub open spec fn resample_fits(width: int, height: int, new_width: int, new_height: int) -> bool {
    &&& grid_fits(width, height)
    &&& grid_fits(width, new_height)
    &&& grid_fits(new_width, new_height)
}

/// Decides whether a `width` by `height` grid of four-channel 32-bit samples
/// can be allocated.
pub fn grid_fits_exec(width: u32, height: u32) -> (ok: bool)
    ensures
        ok == grid_fits(width as int, height as int),
{
    assert(width as int * height as int <= 0xffff_ffff * 0xffff_ffff) by (nonlinear_arith)
        requires
            0 <= width <= 0xffff_ffff,
            0 <= height <= 0xffff_ffff,
    ;
    let cells: u128 = (width as u128) * (height as u128);
    32 * cells <= usize::MAX as u128
}

/// Decides whether every buffer that resampling from `width` by `height` to
/// `new_width` by `new_height` allocates can be allocated.
pub fn resample_fits_exec(width: u32, height: u32, new_width: u32, new_height: u32) -> (ok: bool)
    ensures
        ok == resample_fits(width as int, height as int, new_width as int, new_height as int),
{
    grid_fits_exec(width, height) && grid_fits_exec(width, new_height) && grid_fits_exec(
        new_width,
        new_height,
    )
}

/// What `image::DynamicImage::resize_exact` with the Lanczos3 filter yields
/// for an 8-bit image of `width` by `height` pixels with `channels` samples
/// per pixel, resized to `new_width` by `new_height`: the samples of the
/// result, row by row.
///
/// The filter's kernel goes through the 32-bit sine of the platform, so the
/// name stands for the result on the platform the library is built for.
pub uninterp spec fn resampled(
    data: Seq<u8>,
    channels: int,
    width: int,
    height: int,
    new_width: int,
    new_height: int,
) -> Seq<u8>;

/// Calls `image::DynamicImage::resize_exact` with the Lanczos3 filter on an
/// 8-bit image built from `data` by `image::ImageBuffer::from_raw`, and hands
/// back the bytes of the result.
///
/// Trusted: the result is the one the call computes from the samples, the
/// layout and the two sizes, and is only given a name. It holds
/// `new_width * new_height` pixels of the same layout, and when the size
/// does not change the samples are copied as they are.
#[verifier::external_body]
pub(crate) fn resize_exact(
    data: Vec<u8>,
    layout: Layout,
    width: u32,
    height: u32,
    new_width: u32,
    new_height: u32,
) -> (out: Vec<u8>)
    requires
        width > 0,
        height > 0,
        new_width > 0,
        new_height > 0,
        data@.len() == (width as int * height as int) * layout.channels(),
        resample_fits(width as int, height as int, new_width as int, new_height as int),
    ensures
        out@ == resampled(
            data@,
            layout.channels(),
            width as int,
            height as int,
            new_width as int,
            new_height as int,
        ),
        out@.len() == (new_width as int * new_height as int) * layout.channels(),
        (new_width == width && new_height == height) ==> out@ == data@,
{
    let source = match layout {
        Layout::Luma => image::DynamicImage::ImageLuma8(
            image::ImageBuffer::from_raw(width, height, data).unwrap(),
        ),
        Layout::Rgb => image::DynamicImage::ImageRgb8(
            image::ImageBuffer::from_raw(width, height, data).unwrap(),
        ),
        Layout::Rgba => image::DynamicImage::ImageRgba8(
            image::ImageBuffer::from_raw(width, height, data).unwrap(),
        ),
    };
    source.resize_exact(new_width, new_height, image::imageops::FilterType::Lanczos3).into_bytes()
}

} // verus!
