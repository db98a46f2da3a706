use vstd::prelude::*;
use vstd::arithmetic::div_mod::lemma_fundamental_div_mod_converse;

verus! {

/// How many samples make one pixel.
#[derive(Debug, Clone, Copy, PartialEq, Eq, Structural)]
pub enum ColorChannels {
    Rgb,
    Rgba,
}

impl ColorChannels {
    pub open spec fn spec_count(self) -> nat {
        match self {
            ColorChannels::Rgb => 3,
            ColorChannels::Rgba => 4,
        }
    }

    pub fn count(&self) -> (r: usize)
        ensures
            r == self.spec_count(),
    {
        match self {
            ColorChannels::Rgb => 3,
            ColorChannels::Rgba => 4,
        }
    }
}

/// A decoded image: rows of pixels laid out top to bottom, left to right,
/// each pixel `channels` consecutive 8-bit samples.
#[derive(Debug, Clone)]
pub struct ImageBuffer {
    pub data: Vec<u8>,
    pub width: u32,
    pub height: u32,
    pub channels: ColorChannels,
}

/// Offset of sample `k` of pixel `(x, y)` in a buffer `w` pixels wide with `c` samples per pixel.
pub open spec fn sample_index(w: int, c: int, x: int, y: int, k: int) -> int {
    (y * w + x) * c + k
}

impl ImageBuffer {
    pub open spec fn wf(&self) -> bool {
        self.data@.len() == self.width as int * self.height as int * self.channels.spec_count()
    }

    /// Sample `k` of the pixel at column `x`, row `y`.
    pub open spec fn sample(&self, x: int, y: int, k: int) -> u8 {
        self.data@[sample_index(self.width as int, self.channels.spec_count() as int, x, y, k)]
    }
}

/// Position arithmetic of a row-major pixel grid: a sample index decodes back to
/// its pixel and channel, and lies inside the buffer.
pub proof fn lemma_sample_index(w: int, h: int, c: int, x: int, y: int, k: int)
    requires
        0 <= x < w,
        0 <= y < h,
        0 <= k < c,
    ensures
        0 <= sample_index(w, c, x, y, k) < w * h * c,
        sample_index(w, c, x, y, k) / c == y * w + x,
        sample_index(w, c, x, y, k) % c == k,
        (y * w + x) / w == y,
        (y * w + x) % w == x,
        (y * w + x) * c + c <= w * h * c,
        0 <= y * w + x < w * h,
{
    let p = y * w + x;
    assert(0 <= p) by (nonlinear_arith)
        requires p == y * w + x, 0 <= x, 0 <= y, 0 <= w;
    assert(p + 1 <= w * h) by (nonlinear_arith)
        requires p == y * w + x, x < w, y < h, y >= 0, x >= 0;
    assert(p * c + c <= w * h * c) by (nonlinear_arith)
        requires p + 1 <= w * h, c > 0;
    assert(p * c >= 0) by (nonlinear_arith)
        requires p >= 0, c > 0;
    lemma_fundamental_div_mod_converse(p * c + k, c, p, k);
    lemma_fundamental_div_mod_converse(p, w, y, x);
}

} // verus!
