//! The per-frame noise source.
//!
//! A seeded Mersenne-Twister generator fills a fixed-size block of uniform
//! draws before each frame; ray generation and shading read their jitters
//! from it.  The generator's output is a pure function of the seed and the
//! draw position — the same on every machine and in every run — so it is
//! given the name [`mt_stream`], and the source carries a ghost mirror of
//! its position in that stream: after a refresh the block holds exactly the
//! next [`NOISE_BUFFER_SIZE`] draws.  Runs are therefore reproducible from
//! the explicit seed.

use vstd::prelude::*;
use mersenne_twister::MT19937;
use rand::{Rng, SeedableRng};
use crate::passes::NOISE_BUFFER_SIZE;

verus! {

#[verifier::external_type_specification]
#[verifier::external_body]
pub struct ExMt19937(MT19937);

/// Draw `k` of the Mersenne-Twister stream for `seed`: what the `k`-th call
/// of `next_u32` returns on a generator freshly seeded with `seed`.  The
/// stream depends on the seed and the position alone.
pub uninterp spec fn mt_stream(seed: u32, k: int) -> u32;

/// Relies on mersenne_twister's `SeedableRng::<u32>::from_seed` for
/// `MT19937`: builds the generator state at position zero of its seed's
/// stream.
#[verifier::external_body]
fn mt_from_seed(seed: u32) -> MT19937 {
    <MT19937 as SeedableRng<u32>>::from_seed(seed)
}

/// The seeded generator plus the block of draws uploaded for the current
/// frame.  The ghost `seed` and `drawn` fields mirror the opaque generator
/// state: the generator stands at position `drawn` of `seed`'s stream.
pub struct NoiseSource {
    rng: MT19937,
    block: Vec<u32>,
    seed: Ghost<u32>,
    drawn: Ghost<int>,
}

impl NoiseSource {
    /// The block always holds exactly one frame's worth of draws, and the
    /// stream position never runs backwards.
    pub closed spec fn wf(self) -> bool {
        &&& self.block@.len() == NOISE_BUFFER_SIZE
        &&& self.drawn@ >= 0
    }

    /// The seed the source was built with.
    pub closed spec fn spec_seed(self) -> u32 {
        self.seed@
    }

    /// How many draws of the stream have been consumed.
    pub closed spec fn spec_drawn(self) -> int {
        self.drawn@
    }

    /// The draws of the current block, as a mathematical sequence.
    pub closed spec fn spec_block(self) -> Seq<u32> {
        self.block@
    }

    /// A noise source at position zero of `seed`'s stream; the block starts
    /// zeroed and is filled by [`NoiseSource::refresh`] before each frame.
    pub fn new(seed: u32) -> (s: NoiseSource)
        ensures
            s.wf(),
            s.spec_seed() == seed,
            s.spec_drawn() == 0,
    {
        let rng = mt_from_seed(seed);
        let mut block: Vec<u32> = Vec::new();
        let mut i: usize = 0;
        while i < NOISE_BUFFER_SIZE
            invariant
                i <= NOISE_BUFFER_SIZE,
                block@.len() == i,
            decreases NOISE_BUFFER_SIZE - i,
        {
            block.push(0);
            i += 1;
        }
        NoiseSource { rng, block, seed: Ghost(seed), drawn: Ghost(0) }
    }

    /// Relies on mersenne_twister's `Rng::next_u32` for `MT19937`: one draw
    /// of the generator's stream, advancing it by one position.  The value
    /// is `mt_stream(seed, drawn)` — the stream is a pure function of the
    /// seed and the position, which this source's ghost fields mirror.
    #[verifier::external_body]
    fn next_draw(&mut self) -> (r: u32)
        ensures
            final (self).seed == old(self).seed,
            final (self).drawn@ == old(self).drawn@ + 1,
            final (self).block == old(self).block,
            r == mt_stream(old(self).seed@, old(self).drawn@),
    {
        self.rng.next_u32()
    }

    /// Draws a fresh block for the next frame: afterwards the block holds
    /// exactly the stream's next [`NOISE_BUFFER_SIZE`] draws and the source
    /// stands one block further along it.
    pub fn refresh(&mut self)
        requires
            old(self).wf(),
        ensures
            final (self).wf(),
            final (self).spec_seed() == old(self).spec_seed(),
            final (self).spec_drawn() == old(self).spec_drawn() + NOISE_BUFFER_SIZE,
            forall|j: int|
                0 <= j < NOISE_BUFFER_SIZE ==> final (self).spec_block()[j] == mt_stream(
                    old(self).spec_seed(),
                    old(self).spec_drawn() + j,
                ),
    {
        let mut i: usize = 0;
        while i < NOISE_BUFFER_SIZE
            invariant
                i <= NOISE_BUFFER_SIZE,
                self.block@.len() == NOISE_BUFFER_SIZE,
                self.seed == old(self).seed,
                self.drawn@ == old(self).drawn@ + i,
                old(self).drawn@ >= 0,
                forall|j: int|
                    0 <= j < i ==> self.block@[j] == mt_stream(
                        old(self).seed@,
                        old(self).drawn@ + j,
                    ),
            decreases NOISE_BUFFER_SIZE - i,
        {
            let v = self.next_draw();
            self.block.set(i, v);
            i += 1;
        }
    }

    /// The current frame's noise block.
    pub fn block(&self) -> (b: &Vec<u32>)
        requires
            self.wf(),
        ensures
            b@ == self.spec_block(),
            b@.len() == NOISE_BUFFER_SIZE,
    {
        &self.block
    }
}

} // verus!
