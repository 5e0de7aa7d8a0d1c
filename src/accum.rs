//! The progressive accumulation buffer: one running sum per pixel and a
//! count of the frames summed into it.
//!
//! Sums are kept as values of the caller's colour type `T`; the caller adds
//! each new sample to the stored sum and stores the result back. Dividing a
//! sum by `frames` gives the pixel's current estimate.

use vstd::prelude::*;

verus! {

/// Running per-pixel sums of a `width` × `height` image, stored row by row.
pub struct Accumulator<T> {
    width: usize,
    height: usize,
    sums: Vec<T>,
    frames: u32,
}

/// `n` copies of `v`.
fn filled<T: Copy>(n: usize, v: T) -> (r: Vec<T>)
    ensures
        r@ == Seq::new(n as nat, |_i: int| v),
{
    let mut r: Vec<T> = Vec::new();
    let mut i: usize = 0;
    while i < n
        invariant
            i <= n,
            r@ == Seq::new(i as nat, |_i: int| v),
        decreases n - i,
    {
        r.push(v);
        i += 1;
        assert(r@ =~= Seq::new(i as nat, |_i: int| v));
    }
    r
}

impl<T: Copy> Accumulator<T> {
    /// Image width in pixels.
    pub closed spec fn spec_width(&self) -> nat {
        self.width as nat
    }

    /// Image height in pixels.
    pub closed spec fn spec_height(&self) -> nat {
        self.height as nat
    }

    /// The per-pixel sums, row by row.
    pub closed spec fn spec_sums(&self) -> Seq<T> {
        self.sums@
    }

    /// Frames summed since the last reset.
    pub closed spec fn spec_frames(&self) -> nat {
        self.frames as nat
    }

    /// One sum per pixel.
    pub open spec fn wf(&self) -> bool {
        self.spec_sums().len() == self.spec_width() * self.spec_height()
    }

    /// Every pixel's sum is `zero`.
    pub open spec fn all_sums(&self, zero: T) -> bool {
        forall|k: int| 0 <= k < self.spec_sums().len() ==> #[trigger] self.spec_sums()[k] == zero
    }

    /// An empty buffer: every sum `zero`, no frame counted.
    pub fn new(width: usize, height: usize, zero: T) -> (a: Self)
        requires
            width * height <= usize::MAX,
        ensures
            a.wf(),
            a.spec_width() == width,
            a.spec_height() == height,
            a.spec_frames() == 0,
            a.spec_sums() == Seq::new((width * height) as nat, |_i: int| zero),
    {
        Accumulator { width, height, sums: filled(width * height, zero), frames: 0 }
    }

    /// Image width in pixels.
    pub fn width(&self) -> (w: usize)
        ensures
            w == self.spec_width(),
    {
        self.width
    }

    /// Image height in pixels.
    pub fn height(&self) -> (h: usize)
        ensures
            h == self.spec_height(),
    {
        self.height
    }

    /// Frames summed since the last reset.
    pub fn frames(&self) -> (n: u32)
        ensures
            n == self.spec_frames(),
    {
        self.frames
    }

    /// Position of pixel (`i`, `j`) in the row-by-row buffer.
    pub fn pixel_index(&self, i: usize, j: usize) -> (k: usize)
        requires
            self.wf(),
            i < self.spec_width(),
            j < self.spec_height(),
        ensures
            k == j * self.spec_width() + i,
            k < self.spec_sums().len(),
    {
        let len = self.sums.len();
        proof {
            let w = self.width as int;
            let h = self.height as int;
            assert(j * w + i < h * w) by (nonlinear_arith)
                requires
                    0 <= i < w,
                    0 <= j < h,
            ;
            assert(h * w == w * h) by (nonlinear_arith);
            assert(j * w + i < len);
        }
        j * self.width + i
    }

    /// The running sum of pixel `k`.
    pub fn sum_at(&self, k: usize) -> (s: T)
        requires
            k < self.spec_sums().len(),
        ensures
            s == self.spec_sums()[k as int],
    {
        self.sums[k]
    }

    /// Replaces the running sum of pixel `k` by `s`, the old sum with a new
    /// sample added to it.
    pub fn store_sum(&mut self, k: usize, s: T)
        requires
            k < old(self).spec_sums().len(),
        ensures
            final(self).spec_sums() == old(self).spec_sums().update(k as int, s),
            final(self).spec_width() == old(self).spec_width(),
            final(self).spec_height() == old(self).spec_height(),
            final(self).spec_frames() == old(self).spec_frames(),
    {
        self.sums.set(k, s);
    }

    /// Counts one more frame, once every pixel has had its sample added.
    pub fn finish_frame(&mut self)
        requires
            old(self).spec_frames() < u32::MAX,
        ensures
            final(self).spec_frames() == old(self).spec_frames() + 1,
            final(self).spec_sums() == old(self).spec_sums(),
            final(self).spec_width() == old(self).spec_width(),
            final(self).spec_height() == old(self).spec_height(),
    {
        self.frames = self.frames + 1;
    }

    /// Discards every sample, as a camera move requires: all sums become
    /// `zero` and the frame count returns to zero.
    pub fn reset(&mut self, zero: T)
        requires
            old(self).wf(),
        ensures
            final(self).wf(),
            final(self).spec_frames() == 0,
            final(self).all_sums(zero),
            final(self).spec_sums().len() == old(self).spec_sums().len(),
            final(self).spec_width() == old(self).spec_width(),
            final(self).spec_height() == old(self).spec_height(),
    {
        let n = self.sums.len();
        let mut k: usize = 0;
        while k < n
            invariant
                n == self.sums@.len(),
                k <= n,
                self.width == old(self).width,
                self.height == old(self).height,
                n == self.width * self.height,
                forall|m: int| 0 <= m < k ==> #[trigger] self.sums@[m] == zero,
            decreases n - k,
        {
            self.sums.set(k, zero);
            k += 1;
        }
        self.frames = 0;
    }
}

} // verus!
