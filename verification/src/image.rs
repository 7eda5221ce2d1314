//! The progressive accumulation image.
//!
//! Each pixel keeps the exact per-channel sum of every frame sample it has
//! received, together with the frame count, and the displayed value is the
//! quotient.  After `n` frames the pixel therefore holds the arithmetic mean
//! of its `n` samples exactly, in any order of arrival — the two laws
//! [`lemma_running_mean_convergence`] and
//! [`lemma_accumulation_order_independent`] below.
//!
//! A ghost history of the accumulated frames ties the stored sums to the
//! mathematical sum of the samples.

use vstd::prelude::*;
use vstd::seq_lib::{commutative_foldr, lemma_fold_right_permutation};
use vstd::arithmetic::div_mod::{lemma_div_multiples_vanish, lemma_div_is_ordered};
use crate::scalar::Color;

verus! {

/// Exact per-channel sums of one pixel's samples, at the specification
/// level (unbounded integers).
pub struct ChannelSums {
    pub r: int,
    pub g: int,
    pub b: int,
}

/// Exact per-channel sums of one pixel's samples as stored: the sums of at
/// most `u32::MAX` Q16.16 channels always fit `u64`.
#[derive(Clone, Copy, Debug, PartialEq, Eq, Structural)]
pub struct PixelSum {
    pub r: u64,
    pub g: u64,
    pub b: u64,
}

/// The fold step: add one sample's channels to the running sums.
pub open spec fn spec_add_sample() -> spec_fn(Color, ChannelSums) -> ChannelSums {
    |c: Color, acc: ChannelSums| ChannelSums {
        r: acc.r + c.r,
        g: acc.g + c.g,
        b: acc.b + c.b,
    }
}

/// The exact channel sums of a sequence of samples.
pub open spec fn spec_sums(samples: Seq<Color>) -> ChannelSums {
    samples.fold_right(spec_add_sample(), ChannelSums { r: 0, g: 0, b: 0 })
}

/// Folding from a shifted base adds the base to the zero-based sums.
pub proof fn lemma_sums_base_shift(samples: Seq<Color>, base: ChannelSums)
    ensures
        samples.fold_right(spec_add_sample(), base) == (ChannelSums {
            r: spec_sums(samples).r + base.r,
            g: spec_sums(samples).g + base.g,
            b: spec_sums(samples).b + base.b,
        }),
    decreases samples.len(),
{
    if samples.len() == 0 {
    } else {
        let f = spec_add_sample();
        let last = samples.last();
        lemma_sums_base_shift(samples.drop_last(), f(last, base));
        lemma_sums_base_shift(samples.drop_last(), f(last, ChannelSums { r: 0, g: 0, b: 0 }));
    }
}

/// Appending one sample adds its channels to the sums.
pub proof fn lemma_sums_push(samples: Seq<Color>, c: Color)
    ensures
        spec_sums(samples.push(c)) == (ChannelSums {
            r: spec_sums(samples).r + c.r,
            g: spec_sums(samples).g + c.g,
            b: spec_sums(samples).b + c.b,
        }),
{
    let f = spec_add_sample();
    assert(samples.push(c).drop_last() =~= samples);
    assert(samples.push(c).last() == c);
    lemma_sums_base_shift(samples, f(c, ChannelSums { r: 0, g: 0, b: 0 }));
}

/// Channel sums of `n` samples, each channel at most `u32::MAX`, stay within
/// `n * u32::MAX`.
pub proof fn lemma_sums_bound(samples: Seq<Color>)
    ensures
        0 <= spec_sums(samples).r <= samples.len() * (u32::MAX as int),
        0 <= spec_sums(samples).g <= samples.len() * (u32::MAX as int),
        0 <= spec_sums(samples).b <= samples.len() * (u32::MAX as int),
    decreases samples.len(),
{
    if samples.len() == 0 {
    } else {
        lemma_sums_push(samples.drop_last(), samples.last());
        assert(samples.drop_last().push(samples.last()) =~= samples);
        lemma_sums_bound(samples.drop_last());
        assert((samples.len() - 1) * (u32::MAX as int) + (u32::MAX as int) == samples.len() * (
        u32::MAX as int)) by (nonlinear_arith);
    }
}

/// The image's view: one entry per frame, each a full-resolution sequence of
/// pixel samples.
pub struct AccumulationImage {
    pub sums: Vec<PixelSum>,
    pub count: u32,
    pub width: usize,
    pub height: usize,
    pub history: Ghost<Seq<Seq<Color>>>,
}

/// One pixel's samples across all accumulated frames, in arrival order.
pub open spec fn spec_column(history: Seq<Seq<Color>>, p: int) -> Seq<Color> {
    history.map_values(|frame: Seq<Color>| frame[p])
}

impl AccumulationImage {
    /// Number of pixels.
    pub open spec fn spec_pixel_count(self) -> int {
        self.width * self.height
    }

    /// Well-formedness: the stored sums are exactly the channel sums of the
    /// accumulated frames, pixel by pixel.
    pub open spec fn wf(self) -> bool {
        &&& self.sums@.len() == self.spec_pixel_count()
        &&& self.count == self.history@.len()
        &&& forall|f: int|
            0 <= f < self.history@.len() ==> (#[trigger] self.history@[f]).len()
                == self.spec_pixel_count()
        &&& forall|p: int|
            0 <= p < self.sums@.len() ==> (#[trigger] self.sums@[p]).r as int == spec_sums(
                spec_column(self.history@, p),
            ).r && self.sums@[p].g as int == spec_sums(spec_column(self.history@, p)).g
                && self.sums@[p].b as int == spec_sums(spec_column(self.history@, p)).b
    }

    /// A zeroed image of the given resolution.
    pub fn new(width: usize, height: usize) -> (im: AccumulationImage)
        requires
            width * height <= usize::MAX,
        ensures
            im.wf(),
            im.width == width,
            im.height == height,
            im.count == 0,
            im.history@ == Seq::<Seq<Color>>::empty(),
    {
        let n = width * height;
        let mut sums: Vec<PixelSum> = Vec::new();
        let mut p: usize = 0;
        while p < n
            invariant
                p <= n,
                sums@.len() == p,
                forall|q: int| 0 <= q < p ==> #[trigger] sums@[q] == (PixelSum {
                    r: 0u64,
                    g: 0u64,
                    b: 0u64,
                }),
            decreases n - p,
        {
            sums.push(PixelSum { r: 0, g: 0, b: 0 });
            p += 1;
        }
        AccumulationImage { sums, count: 0, width, height, history: Ghost(Seq::empty()) }
    }

    /// Restarts accumulation: zeroes every pixel and forgets all frames, so
    /// the next frame overwrites rather than blends.
    pub fn reset(&mut self)
        requires
            old(self).wf(),
        ensures
            final (self).wf(),
            final (self).width == old(self).width,
            final (self).height == old(self).height,
            final (self).count == 0,
            final (self).history@ == Seq::<Seq<Color>>::empty(),
    {
        let n = self.sums.len();
        let mut sums: Vec<PixelSum> = Vec::new();
        let mut p: usize = 0;
        while p < n
            invariant
                p <= n,
                sums@.len() == p,
                forall|q: int| 0 <= q < p ==> #[trigger] sums@[q] == (PixelSum {
                    r: 0u64,
                    g: 0u64,
                    b: 0u64,
                }),
            decreases n - p,
        {
            sums.push(PixelSum { r: 0, g: 0, b: 0 });
            p += 1;
        }
        self.sums = sums;
        self.count = 0;
        self.history = Ghost(Seq::empty());
    }

    /// Merges one frame of per-pixel samples into the running sums: each
    /// pixel's stored sum grows by exactly its sample, and the frame joins
    /// the history.  After the call the pixel mean is the arithmetic mean of
    /// all accumulated samples.
    pub fn accumulate(&mut self, frame: &Vec<Color>)
        requires
            old(self).wf(),
            frame@.len() == old(self).spec_pixel_count(),
            old(self).count < u32::MAX,
        ensures
            final (self).wf(),
            final (self).width == old(self).width,
            final (self).height == old(self).height,
            final (self).count == old(self).count + 1,
            final (self).history@ == old(self).history@.push(frame@),
            forall|p: int|
                0 <= p < final (self).sums@.len() ==> (#[trigger] final (self).sums@[p]).r
                    == old(self).sums@[p].r + frame@[p].r && final (self).sums@[p].g
                    == old(self).sums@[p].g + frame@[p].g && final (self).sums@[p].b
                    == old(self).sums@[p].b + frame@[p].b,
    {
        let n = self.sums.len();
        proof {
            assert forall|p: int| 0 <= p < n implies {
                &&& old(self).sums@[p].r + frame@[p].r <= u64::MAX
                &&& old(self).sums@[p].g + frame@[p].g <= u64::MAX
                &&& old(self).sums@[p].b + frame@[p].b <= u64::MAX
            } by {
                lemma_column_len(old(self).history@, p, old(self).spec_pixel_count());
                lemma_sums_bound(spec_column(old(self).history@, p));
                let k = old(self).count as int;
                assert(k * (u32::MAX as int) + (u32::MAX as int) <= u64::MAX) by (nonlinear_arith)
                    requires
                        0 <= k < u32::MAX as int,
                ;
            }
        }
        let mut p: usize = 0;
        while p < n
            invariant
                p <= n,
                n == self.sums@.len(),
                frame@.len() == n,
                self.count == old(self).count,
                self.width == old(self).width,
                self.height == old(self).height,
                self.history == old(self).history,
                forall|q: int|
                    p <= q < n ==> #[trigger] self.sums@[q] == old(self).sums@[q],
                forall|q: int|
                    0 <= q < p ==> (#[trigger] self.sums@[q]).r == old(self).sums@[q].r
                        + frame@[q].r && self.sums@[q].g == old(self).sums@[q].g + frame@[q].g
                        && self.sums@[q].b == old(self).sums@[q].b + frame@[q].b,
                forall|q: int|
                    0 <= q < n ==> old(self).sums@[q].r + frame@[q].r <= u64::MAX && old(
                        self,
                    ).sums@[q].g + frame@[q].g <= u64::MAX && old(self).sums@[q].b + frame@[q].b
                        <= u64::MAX,
            decreases n - p,
        {
            let s = self.sums[p];
            let c = frame[p];
            let updated = PixelSum { r: s.r + c.r as u64, g: s.g + c.g as u64, b: s.b + c.b as u64 };
            self.sums.set(p, updated);
            p += 1;
        }
        self.count = self.count + 1;
        proof {
            self.history@ = old(self).history@.push(frame@);
        }
        proof {
            assert forall|q: int| 0 <= q < self.sums@.len() implies {
                &&& (#[trigger] self.sums@[q]).r as int == spec_sums(
                    spec_column(self.history@, q),
                ).r
                &&& self.sums@[q].g as int == spec_sums(spec_column(self.history@, q)).g
                &&& self.sums@[q].b as int == spec_sums(spec_column(self.history@, q)).b
            } by {
                assert(spec_column(self.history@, q) =~= spec_column(old(self).history@, q).push(
                    frame@[q],
                ));
                lemma_sums_push(spec_column(old(self).history@, q), frame@[q]);
            }
        }
    }

    /// The displayed value of pixel `p`: the per-channel integer mean of the
    /// accumulated samples.
    pub open spec fn spec_mean(self, p: int) -> Color {
        Color {
            r: (self.sums@[p].r as int / self.count as int) as u32,
            g: (self.sums@[p].g as int / self.count as int) as u32,
            b: (self.sums@[p].b as int / self.count as int) as u32,
        }
    }

    /// Reads pixel `p` of the running mean.
    pub fn mean_pixel(&self, p: usize) -> (c: Color)
        requires
            self.wf(),
            self.count > 0,
            p < self.sums@.len(),
        ensures
            c == self.spec_mean(p as int),
    {
        proof {
            lemma_column_len(self.history@, p as int, self.spec_pixel_count());
            lemma_sums_bound(spec_column(self.history@, p as int));
            lemma_mean_fits(
                self.sums@[p as int].r as int,
                self.count as int,
                spec_column(self.history@, p as int).len() as int,
            );
            lemma_mean_fits(
                self.sums@[p as int].g as int,
                self.count as int,
                spec_column(self.history@, p as int).len() as int,
            );
            lemma_mean_fits(
                self.sums@[p as int].b as int,
                self.count as int,
                spec_column(self.history@, p as int).len() as int,
            );
        }
        let s = self.sums[p];
        let n = self.count as u64;
        Color { r: (s.r / n) as u32, g: (s.g / n) as u32, b: (s.b / n) as u32 }
    }
}

/// A pixel column over the history has one entry per frame.
pub proof fn lemma_column_len(history: Seq<Seq<Color>>, p: int, pixels: int)
    ensures
        spec_column(history, p).len() == history.len(),
{
}

/// A sum of `n` channel samples divided by `n` stays within the channel
/// range.
proof fn lemma_mean_fits(sum: int, n: int, frames: int)
    requires
        n > 0,
        n == frames,
        0 <= sum <= frames * (u32::MAX as int),
    ensures
        0 <= sum / n <= u32::MAX,
{
    lemma_div_is_ordered(sum, n * (u32::MAX as int), n);
    assert(n * (u32::MAX as int) == (u32::MAX as int) * n);
    lemma_div_multiples_vanish(u32::MAX as int, n);
    assert((n * (u32::MAX as int)) / n == u32::MAX as int);
    assert(sum / n >= 0) by (nonlinear_arith)
        requires
            sum >= 0,
            n > 0,
    ;
}

/// Law: running-mean convergence.  A pixel whose accumulated samples are all
/// the same color `s` displays exactly `s`, after any positive number of
/// frames.
pub proof fn lemma_running_mean_convergence(im: AccumulationImage, p: int, s: Color)
    requires
        im.wf(),
        im.count > 0,
        0 <= p < im.sums@.len(),
        forall|f: int| 0 <= f < im.history@.len() ==> (#[trigger] im.history@[f])[p] == s,
    ensures
        im.spec_mean(p) == s,
{
    let col = spec_column(im.history@, p);
    lemma_column_len(im.history@, p, im.spec_pixel_count());
    lemma_constant_sums(col, s);
    let n = im.count as int;
    assert(im.sums@[p].r as int == n * s.r);
    lemma_div_multiples_vanish(s.r as int, n);
    lemma_div_multiples_vanish(s.g as int, n);
    lemma_div_multiples_vanish(s.b as int, n);
}

/// The channel sums of a constant sample sequence are the sample scaled by
/// the length.
pub proof fn lemma_constant_sums(samples: Seq<Color>, s: Color)
    requires
        forall|f: int| 0 <= f < samples.len() ==> samples[f] == s,
    ensures
        spec_sums(samples).r == samples.len() * s.r,
        spec_sums(samples).g == samples.len() * s.g,
        spec_sums(samples).b == samples.len() * s.b,
    decreases samples.len(),
{
    if samples.len() == 0 {
    } else {
        lemma_sums_push(samples.drop_last(), samples.last());
        assert(samples.drop_last().push(samples.last()) =~= samples);
        lemma_constant_sums(samples.drop_last(), s);
        assert((samples.len() - 1) * (s.r as int) + s.r == samples.len() * (s.r as int))
            by (nonlinear_arith);
        assert((samples.len() - 1) * (s.g as int) + s.g == samples.len() * (s.g as int))
            by (nonlinear_arith);
        assert((samples.len() - 1) * (s.b as int) + s.b == samples.len() * (s.b as int))
            by (nonlinear_arith);
    }
}

/// Law: order independence of accumulation.  Two images whose accumulated
/// samples at a pixel are permutations of each other store the same sums
/// there, and hence display the same mean.
pub proof fn lemma_accumulation_order_independent(
    a: AccumulationImage,
    b: AccumulationImage,
    p: int,
)
    requires
        a.wf(),
        b.wf(),
        0 <= p < a.sums@.len(),
        0 <= p < b.sums@.len(),
        spec_column(a.history@, p).to_multiset() == spec_column(b.history@, p).to_multiset(),
    ensures
        a.sums@[p] == b.sums@[p],
        a.count > 0 ==> a.spec_mean(p) == b.spec_mean(p),
{
    let ca = spec_column(a.history@, p);
    let cb = spec_column(b.history@, p);
    let f = spec_add_sample();
    assert(commutative_foldr(f));
    lemma_fold_right_permutation(ca, cb, f, ChannelSums { r: 0, g: 0, b: 0 });
    ca.to_multiset_ensures();
    cb.to_multiset_ensures();
    assert(ca.len() == ca.to_multiset().len());
    assert(cb.len() == cb.to_multiset().len());
    lemma_column_len(a.history@, p, a.spec_pixel_count());
    lemma_column_len(b.history@, p, b.spec_pixel_count());
}

} // verus!
