//! The stages around inference: preparing the model's input, turning its
//! output into a mask, and compositing the mask into the image.

use crate::raster::{channel_of, lemma_pixel_index, lemma_sample_index, AlphaMask, RasterImage};
use crate::resample::{resample_fits, resampled, resize_exact, Layout};
use crate::scalar::{
    in_unit_range, lemma_normalized_range, normalize, normalized, quantize, quantized,
};
use crate::tensor::Tensor;
use vstd::prelude::*;

verus! {

/// Side length of the square grid the model reads.
pub const MODEL_SIZE: u32 = 320;

/// Appends to `out` the normalised channel `c` of each of the first `n`
/// pixels of `data`.
fn append_plane(out: &mut Vec<u32>, data: &Vec<u8>, channels: usize, c: usize, n: usize)
    requires
        c < channels,
        data@.len() >= n * channels,
    ensures
        final(out)@.len() == old(out)@.len() + n,
        forall|q: int| 0 <= q < old(out)@.len() ==> final(out)@[q] == old(out)@[q],
        forall|q: int|
            0 <= q < n ==> final(out)@[old(out)@.len() + q] == normalized(
                #[trigger] channel_of(data@, channels as int, q, c as int),
            ),
{
    let ghost start = out@;
    let len: usize = data.len();
    let mut p: usize = 0;
    while p < n
        invariant
            p <= n,
            c < channels,
            len == data@.len(),
            len >= n * channels,
            out@.len() == start.len() + p,
            forall|q: int| 0 <= q < start.len() ==> out@[q] == start[q],
            forall|q: int|
                0 <= q < p ==> out@[start.len() + q] == normalized(
                    #[trigger] channel_of(data@, channels as int, q, c as int),
                ),
        decreases n - p,
    {
        proof {
            lemma_sample_index(p as int, c as int, n as int, channels as int);
        }
        let v: u32 = normalize(data[p * channels + c]);
        out.push(v);
        p = p + 1;
    }
}

/// Lays an image out channel by channel: the red samples of all pixels row
/// by row, then the green ones, then the blue ones, each divided by 255. An
/// alpha channel is dropped.
pub fn channel_first(image: &RasterImage) -> (t: Tensor)
    requires
        image.wf(),
    ensures
        t.wf(),
        t.batch == 1,
        t.channels == 3,
        t.height == image.height,
        t.width == image.width,
        forall|c: int, y: int, x: int|
            0 <= c < 3 && 0 <= y < image.height && 0 <= x < image.width ==> #[trigger] t.sample(
                0,
                c,
                y,
                x,
            ) == normalized(image.sample(x, y, c)),
        forall|i: int| 0 <= i < t.data@.len() ==> in_unit_range(#[trigger] t.data@[i]),
{
    let channels: usize = if image.alpha {
        4
    } else {
        3
    };
    let len: usize = image.data.len();
    let ghost w = image.width as int;
    let ghost h = image.height as int;
    proof {
        assert(w * h <= (w * h) * image.channels() && w * h == h * w && 0 < w * h)
            by (nonlinear_arith)
            requires
                w > 0,
                h > 0,
                3 <= image.channels(),
        ;
    }
    let n: usize = (image.width as usize) * (image.height as usize);
    let mut data: Vec<u32> = Vec::new();
    append_plane(&mut data, &image.data, channels, 0, n);
    append_plane(&mut data, &image.data, channels, 1, n);
    append_plane(&mut data, &image.data, channels, 2, n);
    let t = Tensor {
        batch: 1,
        channels: 3,
        height: image.height as usize,
        width: image.width as usize,
        data,
    };
    proof {
        assert(t.volume() == 3 * n) by (nonlinear_arith)
            requires
                t.volume() == ((1 * 3) * h) * w,
                n == w * h,
        ;
        assert forall|c: int, y: int, x: int|
            0 <= c < 3 && 0 <= y < image.height && 0 <= x < image.width implies #[trigger] t.sample(
            0,
            c,
            y,
            x,
        ) == normalized(image.sample(x, y, c)) by {
            lemma_pixel_index(x, y, w, h);
            let q = y * w + x;
            assert(t.offset(0, c, y, x) == c * n + q) by (nonlinear_arith)
                requires
                    t.offset(0, c, y, x) == ((0 * 3 + c) * h + y) * w + x,
                    n == w * h,
                    q == y * w + x,
            ;
            let plane = channel_of(image.data@, channels as int, q, c);
            if c == 0 {
                assert(t.offset(0, c, y, x) == q);
                assert(t.data@[q] == normalized(plane));
            } else if c == 1 {
                assert(t.offset(0, c, y, x) == n + q);
                assert(t.data@[n + q] == normalized(plane));
            } else {
                assert(t.offset(0, c, y, x) == 2 * n + q);
                assert(t.data@[2 * n + q] == normalized(plane));
            }
            assert(plane == image.sample(x, y, c));
        }
        assert forall|i: int| 0 <= i < t.data@.len() implies in_unit_range(
            #[trigger] t.data@[i],
        ) by {
            let c = if i < n {
                0int
            } else if i < 2 * n {
                1int
            } else {
                2int
            };
            let q = i - c * n;
            let plane = channel_of(image.data@, channels as int, q, c);
            lemma_normalized_range(plane);
            if c == 0 {
                assert(t.data@[q] == normalized(plane));
            } else if c == 1 {
                assert(t.data@[n + q] == normalized(plane));
            } else {
                assert(t.data@[2 * n + q] == normalized(plane));
            }
        }
    }
    t
}

/// The opacities of the first channel of the first batch entry of `raw`,
/// row by row.
pub open spec fn native_plane(raw: Tensor) -> Seq<u8> {
    Seq::new((raw.height * raw.width) as nat, |q: int| quantized(raw.data@[q]) as u8)
}

/// The mask at the tensor's own resolution: the opacity of each score in
/// the first channel of the first batch entry of `raw`.
pub fn native_mask(raw: &Tensor) -> (m: AlphaMask)
    requires
        raw.wf(),
        raw.height <= u32::MAX,
        raw.width <= u32::MAX,
    ensures
        m.wf(),
        m.width == raw.width,
        m.height == raw.height,
        m.data@ == native_plane(*raw),
        forall|x: int, y: int|
            0 <= x < raw.width && 0 <= y < raw.height ==> #[trigger] m.value(x, y) == quantized(
                raw.sample(0, 0, y, x),
            ),
{
    let len: usize = raw.data.len();
    let ghost w = raw.width as int;
    let ghost h = raw.height as int;
    proof {
        let b = raw.batch as int;
        let c = raw.channels as int;
        assert(h * w <= ((b * c) * h) * w && h * w == w * h) by (nonlinear_arith)
            requires
                b >= 1,
                c >= 1,
                h >= 1,
                w >= 1,
        ;
    }
    let n: usize = raw.height * raw.width;
    let mut data: Vec<u8> = Vec::new();
    let mut p: usize = 0;
    while p < n
        invariant
            p <= n <= len,
            len == raw.data@.len(),
            data@.len() == p,
            forall|q: int| 0 <= q < p ==> #[trigger] data@[q] == quantized(raw.data@[q]),
        decreases n - p,
    {
        let v: u8 = quantize(raw.data[p]);
        data.push(v);
        p = p + 1;
    }
    let m = AlphaMask { width: raw.width as u32, height: raw.height as u32, data };
    proof {
        assert(m.data@ =~= native_plane(*raw));
        assert forall|x: int, y: int|
            0 <= x < raw.width && 0 <= y < raw.height implies #[trigger] m.value(x, y)
            == quantized(raw.sample(0, 0, y, x)) by {
            lemma_pixel_index(x, y, w, h);
            let q = y * w + x;
            assert(raw.offset(0, 0, y, x) == q) by (nonlinear_arith)
                requires
                    raw.offset(0, 0, y, x) == ((0 * raw.channels as int + 0) * h + y) * w + x,
                    q == y * w + x,
            ;
            assert(m.data@[q] == quantized(raw.data@[q]));
        }
    }
    m
}

/// Turns an image of any size into the model's input: stretched to
/// `MODEL_SIZE` by `MODEL_SIZE` without keeping the aspect ratio, reduced to
/// red, green and blue, and laid out channel by channel.
///
/// The shape is always (1, 3, 320, 320) and every element is a number from
/// 0 to 1: a sample of the resampled image divided by 255. Where the image
/// already has the model's size the resampled image is the image itself.
pub fn prepare(image: &RasterImage) -> (t: Tensor)
    requires
        image.wf(),
        resample_fits(
            image.width as int,
            image.height as int,
            MODEL_SIZE as int,
            MODEL_SIZE as int,
        ),
    ensures
        t.wf(),
        t.batch == 1,
        t.channels == 3,
        t.height == MODEL_SIZE,
        t.width == MODEL_SIZE,
        t.data@.len() == 3 * 320 * 320,
        forall|i: int| 0 <= i < t.data@.len() ==> in_unit_range(#[trigger] t.data@[i]),
        forall|c: int, y: int, x: int|
            0 <= c < 3 && 0 <= y < 320 && 0 <= x < 320 ==> #[trigger] t.sample(0, c, y, x)
                == normalized(
                channel_of(
                    resampled(
                        image.data@,
                        image.channels(),
                        image.width as int,
                        image.height as int,
                        320,
                        320,
                    ),
                    image.channels(),
                    y * 320 + x,
                    c,
                ),
            ),
        image.width == MODEL_SIZE && image.height == MODEL_SIZE ==> forall|c: int, y: int, x: int|
            0 <= c < 3 && 0 <= y < MODEL_SIZE && 0 <= x < MODEL_SIZE ==> #[trigger] t.sample(
                0,
                c,
                y,
                x,
            ) == normalized(image.sample(x, y, c)),
{
    let layout = if image.alpha {
        Layout::Rgba
    } else {
        Layout::Rgb
    };
    let resized = resize_exact(
        image.data.clone(),
        layout,
        image.width,
        image.height,
        MODEL_SIZE,
        MODEL_SIZE,
    );
    let scaled = RasterImage {
        width: MODEL_SIZE,
        height: MODEL_SIZE,
        alpha: image.alpha,
        data: resized,
    };
    let t = channel_first(&scaled);
    proof {
        assert forall|c: int, y: int, x: int|
            0 <= c < 3 && 0 <= y < 320 && 0 <= x < 320 implies #[trigger] t.sample(0, c, y, x)
            == normalized(
            channel_of(
                resampled(
                    image.data@,
                    image.channels(),
                    image.width as int,
                    image.height as int,
                    320,
                    320,
                ),
                image.channels(),
                y * 320 + x,
                c,
            ),
        ) by {
            assert(t.sample(0, c, y, x) == normalized(scaled.sample(x, y, c)));
        }
        assert(t.volume() == 3 * 320 * 320) by (nonlinear_arith)
            requires
                t.volume() == ((1 * 3) * 320) * 320,
        ;
        if image.width == MODEL_SIZE && image.height == MODEL_SIZE {
            assert forall|c: int, y: int, x: int|
                0 <= c < 3 && 0 <= y < MODEL_SIZE && 0 <= x < MODEL_SIZE implies #[trigger] t.sample(
                0,
                c,
                y,
                x,
            ) == normalized(image.sample(x, y, c)) by {
                assert(t.sample(0, c, y, x) == normalized(scaled.sample(x, y, c)));
            }
        }
    }
    t
}

/// Turns the model's output into a mask of `original_width` by
/// `original_height`: quantises the first channel at the tensor's own
/// resolution and resamples it to the requested size.
///
/// Where the tensor already has the requested size the mask is the
/// quantised channel itself.
pub fn finalize(raw: &Tensor, original_width: u32, original_height: u32) -> (m: AlphaMask)
    requires
        raw.wf(),
        raw.height <= u32::MAX,
        raw.width <= u32::MAX,
        original_width > 0,
        original_height > 0,
        resample_fits(
            raw.width as int,
            raw.height as int,
            original_width as int,
            original_height as int,
        ),
    ensures
        m.wf(),
        m.width == original_width,
        m.height == original_height,
        m.data@ == resampled(
            native_plane(*raw),
            1,
            raw.width as int,
            raw.height as int,
            original_width as int,
            original_height as int,
        ),
        original_width == raw.width && original_height == raw.height ==> forall|x: int, y: int|
            0 <= x < raw.width && 0 <= y < raw.height ==> #[trigger] m.value(x, y) == quantized(
                raw.sample(0, 0, y, x),
            ),
{
    let native = native_mask(raw);
    let AlphaMask { width, height, data } = native;
    let resized = resize_exact(data, Layout::Luma, width, height, original_width, original_height);
    let m = AlphaMask { width: original_width, height: original_height, data: resized };
    proof {
        assert(Layout::Luma.channels() == 1);
        assert(m.data@.len() == m.pixels()) by (nonlinear_arith)
            requires
                m.data@.len() == (original_width as int * original_height as int) * 1,
                m.pixels() == original_width as int * original_height as int,
        ;
        if original_width == raw.width && original_height == raw.height {
            assert forall|x: int, y: int|
                0 <= x < raw.width && 0 <= y < raw.height implies #[trigger] m.value(x, y)
                == quantized(raw.sample(0, 0, y, x)) by {
                assert(m.value(x, y) == native.value(x, y));
            }
        }
    }
    m
}

/// Merges an image and a mask of the same size into an RGBA image: colour
/// from the image, opacity from the mask. Any alpha the image had is
/// replaced.
pub fn composite(image: &RasterImage, mask: &AlphaMask) -> (out: RasterImage)
    requires
        image.wf(),
        mask.wf(),
        mask.width == image.width,
        mask.height == image.height,
        4 * image.pixels() <= usize::MAX,
    ensures
        out.wf(),
        out.alpha,
        out.width == image.width,
        out.height == image.height,
        forall|x: int, y: int, c: int|
            0 <= x < image.width && 0 <= y < image.height && 0 <= c < 3 ==> #[trigger] out.sample(
                x,
                y,
                c,
            ) == image.sample(x, y, c),
        forall|x: int, y: int|
            0 <= x < image.width && 0 <= y < image.height ==> #[trigger] out.sample(x, y, 3)
                == mask.value(x, y),
{
    let channels: usize = if image.alpha {
        4
    } else {
        3
    };
    let n: usize = mask.data.len();
    let len: usize = image.data.len();
    let mut data: Vec<u8> = Vec::new();
    let mut p: usize = 0;
    while p < n
        invariant
            p <= n,
            n == mask.data@.len(),
            channels == image.channels(),
            len == image.data@.len(),
            len == n * channels,
            4 * n <= usize::MAX,
            data@.len() == 4 * p,
            forall|q: int, c: int|
                0 <= q < p && 0 <= c < 3 ==> #[trigger] channel_of(data@, 4, q, c) == channel_of(
                    image.data@,
                    channels as int,
                    q,
                    c,
                ),
            forall|q: int| 0 <= q < p ==> #[trigger] channel_of(data@, 4, q, 3) == mask.data@[q],
        decreases n - p,
    {
        proof {
            lemma_sample_index(p as int, 0, n as int, channels as int);
        }
        let base: usize = p * channels;
        let r: u8 = image.data[base];
        let g: u8 = image.data[base + 1];
        let b: u8 = image.data[base + 2];
        let a: u8 = mask.data[p];
        let ghost before = data@;
        data.push(r);
        data.push(g);
        data.push(b);
        data.push(a);
        proof {
            assert forall|q: int, c: int| 0 <= q < p + 1 && 0 <= c < 3 implies #[trigger] channel_of(
                data@,
                4,
                q,
                c,
            ) == channel_of(image.data@, channels as int, q, c) by {
                if q < p {
                    assert(channel_of(before, 4, q, c) == channel_of(
                        image.data@,
                        channels as int,
                        q,
                        c,
                    ));
                }
            }
            assert forall|q: int| 0 <= q < p + 1 implies #[trigger] channel_of(data@, 4, q, 3)
                == mask.data@[q] by {
                if q < p {
                    assert(channel_of(before, 4, q, 3) == mask.data@[q]);
                }
            }
        }
        p = p + 1;
    }
    let out = RasterImage { width: image.width, height: image.height, alpha: true, data };
    proof {
        let w = image.width as int;
        let h = image.height as int;
        assert forall|x: int, y: int, c: int|
            0 <= x < image.width && 0 <= y < image.height && 0 <= c < 3 implies #[trigger] out.sample(
            x,
            y,
            c,
        ) == image.sample(x, y, c) by {
            lemma_pixel_index(x, y, w, h);
            assert(channel_of(data@, 4, y * w + x, c) == channel_of(
                image.data@,
                channels as int,
                y * w + x,
                c,
            ));
        }
        assert forall|x: int, y: int|
            0 <= x < image.width && 0 <= y < image.height implies #[trigger] out.sample(x, y, 3)
            == mask.value(x, y) by {
            lemma_pixel_index(x, y, w, h);
            assert(channel_of(data@, 4, y * w + x, 3) == mask.data@[y * w + x]);
        }
    }
    out
}

/// The stages that follow inference: the mask for `image` from the model's
/// output `raw`, composited into `image`.
pub fn run(image: &RasterImage, raw: &Tensor) -> (out: RasterImage)
    requires
        image.wf(),
        raw.wf(),
        raw.height <= u32::MAX,
        raw.width <= u32::MAX,
        resample_fits(
            raw.width as int,
            raw.height as int,
            image.width as int,
            image.height as int,
        ),
    ensures
        out.wf(),
        out.alpha,
        out.width == image.width,
        out.height == image.height,
        forall|x: int, y: int, c: int|
            0 <= x < image.width && 0 <= y < image.height && 0 <= c < 3 ==> #[trigger] out.sample(
                x,
                y,
                c,
            ) == image.sample(x, y, c),
        forall|x: int, y: int|
            0 <= x < image.width && 0 <= y < image.height ==> #[trigger] out.sample(x, y, 3)
                == resampled(
                native_plane(*raw),
                1,
                raw.width as int,
                raw.height as int,
                image.width as int,
                image.height as int,
            )[y * image.width + x],
        image.width == raw.width && image.height == raw.height ==> forall|x: int, y: int|
            0 <= x < raw.width && 0 <= y < raw.height ==> #[trigger] out.sample(x, y, 3)
                == quantized(raw.sample(0, 0, y, x)),
{
    let mask = finalize(raw, image.width, image.height);
    let out = composite(image, &mask);
    proof {
        assert forall|x: int, y: int|
            0 <= x < image.width && 0 <= y < image.height implies #[trigger] out.sample(x, y, 3)
            == resampled(
            native_plane(*raw),
            1,
            raw.width as int,
            raw.height as int,
            image.width as int,
            image.height as int,
        )[y * image.width + x] by {
            assert(out.sample(x, y, 3) == mask.value(x, y));
        }
        if image.width == raw.width && image.height == raw.height {
            assert forall|x: int, y: int|
                0 <= x < raw.width && 0 <= y < raw.height implies #[trigger] out.sample(x, y, 3)
                == quantized(raw.sample(0, 0, y, x)) by {
                assert(out.sample(x, y, 3) == mask.value(x, y));
            }
        }
    }
    out
}

} // verus!
