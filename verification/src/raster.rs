//! Eight-bit rasters: colour images and single-channel alpha masks.

use vstd::prelude::*;

verus! {

/// The sample of channel `c` of pixel number `p` in interleaved `data` that
/// holds `channels` samples per pixel.
pub open spec fn channel_of(data: Seq<u8>, channels: int, p: int, c: int) -> u8 {
    data[p * channels + c]
}

/// Row-major pixel numbers stay inside the grid.
pub proof fn lemma_pixel_index(x: int, y: int, w: int, h: int)
    requires
        0 <= x < w,
        0 <= y < h,
    ensures
        0 <= y * w + x < w * h,
{
    assert(0 <= y * w && (y + 1) * w <= h * w && (y + 1) * w == y * w + w) by (nonlinear_arith)
        requires
            0 <= y < h,
            0 < w,
    ;
}

/// The samples of pixel `p` lie inside a buffer of `n` pixels.
pub proof fn lemma_sample_index(p: int, c: int, n: int, channels: int)
    requires
        0 <= p < n,
        0 <= c < channels,
    ensures
        0 <= p * channels + c < n * channels,
        p * channels + channels <= n * channels,
{
    assert(0 <= p * channels && (p + 1) * channels <= n * channels && (p + 1) * channels == p
        * channels + channels) by (nonlinear_arith)
        requires
            0 <= p < n,
            0 < channels,
    ;
}

/// A colour raster with interleaved 8-bit samples, RGB or RGBA.
#[derive(Debug)]
pub struct RasterImage {
    /// Number of pixel columns.
    pub width: u32,
    /// Number of pixel rows.
    pub height: u32,
    /// Whether each pixel carries a fourth, alpha, sample.
    pub alpha: bool,
    /// Samples row by row, pixel by pixel, channel by channel.
    pub data: Vec<u8>,
}

impl RasterImage {
    /// Samples per pixel: 4 with alpha, 3 without.
    pub open spec fn channels(&self) -> int {
        if self.alpha {
            4
        } else {
            3
        }
    }

    /// Number of pixels.
    pub open spec fn pixels(&self) -> int {
        self.width as int * self.height as int
    }

    /// The raster is non-empty and its buffer holds exactly its samples.
    pub open spec fn wf(&self) -> bool {
        &&& self.width > 0
        &&& self.height > 0
        &&& self.data@.len() == self.pixels() * self.channels()
    }

    /// The sample of channel `c` at column `x`, row `y`.
    pub open spec fn sample(&self, x: int, y: int, c: int) -> u8 {
        channel_of(self.data@, self.channels(), y * self.width as int + x, c)
    }

    /// Builds a raster from its parts; `None` unless both dimensions are
    /// positive and `data` holds exactly one sample per channel and pixel.
    pub fn new(width: u32, height: u32, alpha: bool, data: Vec<u8>) -> (r: Option<RasterImage>)
        ensures
            r is Some <==> (RasterImage { width, height, alpha, data }).wf(),
            r is Some ==> r->0 == (RasterImage { width, height, alpha, data }),
    {
        let channels: u128 = if alpha {
            4
        } else {
            3
        };
        assert(width as int * height as int <= 0xffff_ffff * 0xffff_ffff) by (nonlinear_arith)
            requires
                0 <= width <= 0xffff_ffff,
                0 <= height <= 0xffff_ffff,
        ;
        let pixels: u128 = (width as u128) * (height as u128);
        let wanted: u128 = pixels * channels;
        if width > 0 && height > 0 && data.len() as u128 == wanted {
            Some(RasterImage { width, height, alpha, data })
        } else {
            None
        }
    }

    /// Reads the sample of channel `c` at column `x`, row `y`.
    pub fn get(&self, x: u32, y: u32, c: usize) -> (v: u8)
        requires
            self.wf(),
            x < self.width,
            y < self.height,
            c < self.channels(),
        ensures
            v == self.sample(x as int, y as int, c as int),
    {
        let channels: usize = if self.alpha {
            4
        } else {
            3
        };
        proof {
            lemma_pixel_index(x as int, y as int, self.width as int, self.height as int);
            lemma_sample_index(
                y as int * self.width as int + x as int,
                c as int,
                self.pixels(),
                self.channels(),
            );
            assert(0 <= y as int * self.width as int) by (nonlinear_arith)
                requires
                    0 <= y,
                    0 <= self.width,
            ;
            assert(0 <= (y as int * self.width as int + x as int) * self.channels());
        }
        let len: usize = self.data.len();
        assert(len == self.pixels() * self.channels());
        let p: usize = (y as usize) * (self.width as usize) + (x as usize);
        self.data[p * channels + c]
    }
}

/// A single-channel 8-bit raster: the opacity of each pixel.
#[derive(Debug)]
pub struct AlphaMask {
    /// Number of pixel columns.
    pub width: u32,
    /// Number of pixel rows.
    pub height: u32,
    /// One sample per pixel, row by row.
    pub data: Vec<u8>,
}

impl AlphaMask {
    /// Number of pixels.
    pub open spec fn pixels(&self) -> int {
        self.width as int * self.height as int
    }

    /// The mask is non-empty and its buffer holds exactly one sample per pixel.
    pub open spec fn wf(&self) -> bool {
        &&& self.width > 0
        &&& self.height > 0
        &&& self.data@.len() == self.pixels()
    }

    /// The opacity at column `x`, row `y`.
    pub open spec fn value(&self, x: int, y: int) -> u8 {
        channel_of(self.data@, 1, y * self.width as int + x, 0)
    }

    /// Builds a mask from its parts; `None` unless both dimensions are
    /// positive and `data` holds exactly one sample per pixel.
    pub fn new(width: u32, height: u32, data: Vec<u8>) -> (r: Option<AlphaMask>)
        ensures
            r is Some <==> (AlphaMask { width, height, data }).wf(),
            r is Some ==> r->0 == (AlphaMask { width, height, data }),
    {
        assert(width as int * height as int <= 0xffff_ffff * 0xffff_ffff) by (nonlinear_arith)
            requires
                0 <= width <= 0xffff_ffff,
                0 <= height <= 0xffff_ffff,
        ;
        let wanted: u128 = (width as u128) * (height as u128);
        if width > 0 && height > 0 && data.len() as u128 == wanted {
            Some(AlphaMask { width, height, data })
        } else {
            None
        }
    }

    /// Reads the opacity at column `x`, row `y`.
    pub fn get(&self, x: u32, y: u32) -> (v: u8)
        requires
            self.wf(),
            x < self.width,
            y < self.height,
        ensures
            v == self.value(x as int, y as int),
    {
        proof {
            lemma_pixel_index(x as int, y as int, self.width as int, self.height as int);
            assert(0 <= y as int * self.width as int) by (nonlinear_arith)
                requires
                    0 <= y,
                    0 <= self.width,
            ;
        }
        let len: usize = self.data.len();
        assert(len == self.pixels());
        let p: usize = (y as usize) * (self.width as usize) + (x as usize);
        self.data[p]
    }
}

} // verus!
