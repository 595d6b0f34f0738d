//! Dense four-dimensional tensors in batch, channel, row, column order.

use crate::error::RemoveBgError;
use vstd::prelude::*;

verus! {

/// Flattening a two-level index stays inside the flattened range.
pub proof fn lemma_flat_index(i: int, j: int, outer: int, inner: int)
    requires
        0 <= i < outer,
        0 <= j < inner,
    ensures
        0 <= i * inner + j < outer * inner,
{
    assert(0 <= i * inner && (i + 1) * inner <= outer * inner && (i + 1) * inner == i * inner
        + inner) by (nonlinear_arith)
        requires
            0 <= i < outer,
            0 < inner,
    ;
}

/// A tensor of shape (batch, channels, height, width).
///
/// Each element is a 32-bit IEEE 754 binary number, held as its bit pattern.
#[derive(Debug)]
pub struct Tensor {
    /// Size of the first axis.
    pub batch: usize,
    /// Size of the second axis.
    pub channels: usize,
    /// Size of the third axis: rows.
    pub height: usize,
    /// Size of the fourth axis: columns.
    pub width: usize,
    /// Elements in row-major order over the four axes.
    pub data: Vec<u32>,
}

/// Number of samples in a tensor of the given shape.
pub open spec fn volume_of(batch: int, channels: int, height: int, width: int) -> int {
    ((batch * channels) * height) * width
}

/// The description of what is wrong with a shape that `Tensor::new` refuses.
pub open spec fn shape_fault(batch: usize, channels: usize, height: usize, width: usize) -> Seq<
    char,
> {
    if batch == 0 || channels == 0 || height == 0 || width == 0 {
        "tensor has an empty axis"@
    } else {
        "tensor shape does not match its data"@
    }
}

impl Tensor {
    /// Number of samples the shape calls for.
    pub open spec fn volume(&self) -> int {
        volume_of(self.batch as int, self.channels as int, self.height as int, self.width as int)
    }

    /// No axis is empty and the buffer holds exactly one sample per position.
    pub open spec fn wf(&self) -> bool {
        &&& self.batch > 0
        &&& self.channels > 0
        &&& self.height > 0
        &&& self.width > 0
        &&& self.data@.len() == self.volume()
    }

    /// Where the sample at (n, c, y, x) sits in the buffer.
    pub open spec fn offset(&self, n: int, c: int, y: int, x: int) -> int {
        ((n * self.channels as int + c) * self.height as int + y) * self.width as int + x
    }

    /// The sample at (n, c, y, x).
    pub open spec fn sample(&self, n: int, c: int, y: int, x: int) -> u32 {
        self.data@[self.offset(n, c, y, x)]
    }

    /// Every in-range position has its sample inside the buffer.
    pub proof fn lemma_offset(&self, n: int, c: int, y: int, x: int)
        requires
            0 <= n < self.batch,
            0 <= c < self.channels,
            0 <= y < self.height,
            0 <= x < self.width,
        ensures
            0 <= n * self.channels as int + c < self.batch as int * self.channels as int,
            0 <= (n * self.channels as int + c) * self.height as int + y < (self.batch as int
                * self.channels as int) * self.height as int,
            0 <= self.offset(n, c, y, x) < self.volume(),
    {
        let b = self.batch as int;
        let ch = self.channels as int;
        let h = self.height as int;
        let w = self.width as int;
        lemma_flat_index(n, c, b, ch);
        lemma_flat_index(n * ch + c, y, b * ch, h);
        lemma_flat_index((n * ch + c) * h + y, x, (b * ch) * h, w);
    }

    /// Builds a tensor from a shape and its samples. Fails with `ModelError`
    /// when an axis is empty or the number of samples is not the product of
    /// the four sizes.
    pub fn new(batch: usize, channels: usize, height: usize, width: usize, data: Vec<u32>) -> (r:
        Result<Tensor, RemoveBgError>)
        ensures
            r is Ok <==> (Tensor { batch, channels, height, width, data }).wf(),
            r is Ok ==> r->Ok_0 == (Tensor { batch, channels, height, width, data }),
            r is Err ==> r->Err_0 is ModelError && r->Err_0->ModelError_0@ == shape_fault(
                batch,
                channels,
                height,
                width,
            ),
    {
        if batch == 0 || channels == 0 || height == 0 || width == 0 {
            return Err(RemoveBgError::ModelError("tensor has an empty axis".to_owned()));
        }
        let len: usize = data.len();
        let mut fits: bool = false;
        if let Some(bc) = batch.checked_mul(channels) {
            if let Some(bch) = bc.checked_mul(height) {
                if let Some(all) = bch.checked_mul(width) {
                    fits = all == len;
                }
            }
        }
        proof {
            let b = batch as int;
            let c = channels as int;
            let h = height as int;
            let w = width as int;
            assert(b * c <= (b * c) * h && (b * c) * h <= ((b * c) * h) * w && b * c >= 1)
                by (nonlinear_arith)
                requires
                    b >= 1,
                    c >= 1,
                    h >= 1,
                    w >= 1,
            ;
        }
        if fits {
            Ok(Tensor { batch, channels, height, width, data })
        } else {
            Err(RemoveBgError::ModelError("tensor shape does not match its data".to_owned()))
        }
    }

    /// Reads the sample at (n, c, y, x).
    pub fn get(&self, n: usize, c: usize, y: usize, x: usize) -> (v: u32)
        requires
            self.wf(),
            n < self.batch,
            c < self.channels,
            y < self.height,
            x < self.width,
        ensures
            v == self.sample(n as int, c as int, y as int, x as int),
    {
        let len: usize = self.data.len();
        proof {
            self.lemma_offset(n as int, c as int, y as int, x as int);
            let b = self.batch as int;
            let ch = self.channels as int;
            let h = self.height as int;
            let w = self.width as int;
            assert(b * ch <= (b * ch) * h && (b * ch) * h <= ((b * ch) * h) * w && 0 <= n * ch)
                by (nonlinear_arith)
                requires
                    b >= 1,
                    ch >= 1,
                    h >= 1,
                    w >= 1,
                    n >= 0,
            ;
            assert(0 <= (n * ch + c) * h && 0 <= ((n * ch + c) * h + y) * w) by (nonlinear_arith)
                requires
                    0 <= n * ch + c,
                    0 <= y,
                    h >= 1,
                    w >= 1,
            ;
        }
        let plane: usize = n * self.channels + c;
        let row: usize = plane * self.height + y;
        self.data[row * self.width + x]
    }
}

} // verus!
