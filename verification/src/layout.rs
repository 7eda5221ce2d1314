//! Fixed binary layouts for the GPU-visible records.
//!
//! Each record is written field by field at fixed offsets with fixed-width
//! little-endian words, so the bytes uploaded to device memory match the
//! kernels' expectations regardless of host struct layout.  Every encoder
//! has a verified decoder, and decoding an encoding returns the original
//! record exactly.
//!
//! Strides: a ray occupies 44 bytes, an intersection 16, a frame-state
//! record 12, an emitter triangle 20.

use vstd::prelude::*;
use vstd::bytes::{
    spec_u32_to_le_bytes,
    spec_u32_from_le_bytes,
    lemma_auto_spec_u32_to_from_le_bytes,
    u32_to_le_bytes,
    u32_from_le_bytes,
};
use vstd::slice::slice_subrange;
use crate::scalar::Color;
use crate::vecmath::Vec3;
use crate::passes::{Ray, Intersection};
use crate::raytracer::FrameState;
use crate::emitter::EmitterTriangle;

verus! {

/// Bytes of one ray slot in device memory.
pub const SIZE_OF_RAY: usize = 44;

/// Bytes of one intersection result in device memory.
pub const SIZE_OF_INTERSECTION: usize = 16;

/// Bytes of the frame-state record in device memory.
pub const SIZE_OF_FRAME_STATE: usize = 12;

/// Bytes of one emitter-triangle record in device memory.
pub const SIZE_OF_EMITTER_TRIANGLE: usize = 20;

/// A signed Q16.16 coordinate as its 32-bit two's-complement word.
pub open spec fn spec_coord_bits(x: int) -> int {
    if x >= 0 {
        x
    } else {
        x + 0x1_0000_0000
    }
}

/// Encodes a coordinate as its two's-complement word.
pub fn coord_to_bits(x: i32) -> (w: u32)
    ensures
        w as int == spec_coord_bits(x as int),
{
    if x >= 0 {
        x as u32
    } else {
        ((x as i64) + 0x1_0000_0000i64) as u32
    }
}

/// Decodes a two's-complement word back into the coordinate.
pub fn coord_from_bits(w: u32) -> (x: i32)
    ensures
        spec_coord_bits(x as int) == w as int,
{
    if w >= 0x8000_0000 {
        ((w as i64) - 0x1_0000_0000i64) as i32
    } else {
        w as i32
    }
}

/// The words of one ray slot, in layout order: origin, minimum distance,
/// direction, maximum distance, carried radiance.
pub open spec fn spec_ray_words(r: Ray) -> Seq<u32> {
    seq![
        spec_coord_bits(r.origin.x as int) as u32,
        spec_coord_bits(r.origin.y as int) as u32,
        spec_coord_bits(r.origin.z as int) as u32,
        r.min_distance,
        spec_coord_bits(r.direction.x as int) as u32,
        spec_coord_bits(r.direction.y as int) as u32,
        spec_coord_bits(r.direction.z as int) as u32,
        r.max_distance,
        r.radiance.r,
        r.radiance.g,
        r.radiance.b,
    ]
}

/// The words of one intersection result, in layout order.
pub open spec fn spec_intersection_words(h: Intersection) -> Seq<u32> {
    seq![h.distance, h.primitive_index, h.coord_u, h.coord_v]
}

/// The words of the frame-state record, in layout order.
pub open spec fn spec_frame_state_words(s: FrameState) -> Seq<u32> {
    seq![s.ray_number, s.emitter_triangles_count, s.emitter_total_area]
}

/// The words of one emitter-triangle record, in layout order.
pub open spec fn spec_emitter_words(e: EmitterTriangle) -> Seq<u32> {
    seq![e.primitive_index, e.emissive.r, e.emissive.g, e.emissive.b, e.area]
}

/// A word sequence written out as little-endian bytes, four per word.
pub open spec fn spec_words_to_bytes(ws: Seq<u32>) -> Seq<u8>
    decreases ws.len(),
{
    if ws.len() == 0 {
        Seq::empty()
    } else {
        spec_u32_to_le_bytes(ws[0]) + spec_words_to_bytes(ws.drop_first())
    }
}

/// Each word sequence of length `n` becomes exactly `4 * n` bytes.
pub proof fn lemma_words_to_bytes_len(ws: Seq<u32>)
    ensures
        spec_words_to_bytes(ws).len() == 4 * ws.len(),
    decreases ws.len(),
{
    lemma_auto_spec_u32_to_from_le_bytes();
    if ws.len() > 0 {
        lemma_words_to_bytes_len(ws.drop_first());
    }
}

/// Word `i` can be read back from bytes `4i .. 4i+4` of the encoding.
pub proof fn lemma_words_to_bytes_index(ws: Seq<u32>, i: int)
    requires
        0 <= i < ws.len(),
    ensures
        spec_words_to_bytes(ws).subrange(4 * i, 4 * i + 4) == spec_u32_to_le_bytes(ws[i]),
    decreases i,
{
    lemma_auto_spec_u32_to_from_le_bytes();
    lemma_words_to_bytes_len(ws);
    if i == 0 {
        assert(spec_words_to_bytes(ws).subrange(0, 4) =~= spec_u32_to_le_bytes(ws[0]));
    } else {
        lemma_words_to_bytes_len(ws.drop_first());
        lemma_words_to_bytes_index(ws.drop_first(), i - 1);
        assert(spec_words_to_bytes(ws).subrange(4 * i, 4 * i + 4) =~= spec_words_to_bytes(
            ws.drop_first(),
        ).subrange(4 * (i - 1), 4 * (i - 1) + 4));
    }
}

/// Appends the little-endian bytes of `w` to the output buffer.
fn push_word(out: &mut Vec<u8>, w: u32)
    ensures
        final (out)@ == old(out)@ + spec_u32_to_le_bytes(w),
{
    let mut bs = u32_to_le_bytes(w);
    out.append(&mut bs);
}

/// Reads the word at byte offset `off` of an encoded buffer.
fn read_word(bytes: &Vec<u8>, off: usize) -> (w: u32)
    requires
        off + 4 <= bytes@.len(),
    ensures
        w == spec_u32_from_le_bytes(bytes@.subrange(off as int, off as int + 4)),
{
    let n = bytes.len();
    let s = slice_subrange(bytes.as_slice(), off, off + 4);
    u32_from_le_bytes(s)
}

/// Encodes one ray slot into its 44-byte device layout.
#[verifier::rlimit(60)]
pub fn ray_to_bytes(r: &Ray) -> (b: Vec<u8>)
    ensures
        b@ == spec_words_to_bytes(spec_ray_words(*r)),
        b@.len() == SIZE_OF_RAY,
{
    let mut out: Vec<u8> = Vec::new();
    push_word(&mut out, coord_to_bits(r.origin.x));
    push_word(&mut out, coord_to_bits(r.origin.y));
    push_word(&mut out, coord_to_bits(r.origin.z));
    push_word(&mut out, r.min_distance);
    push_word(&mut out, coord_to_bits(r.direction.x));
    push_word(&mut out, coord_to_bits(r.direction.y));
    push_word(&mut out, coord_to_bits(r.direction.z));
    push_word(&mut out, r.max_distance);
    push_word(&mut out, r.radiance.r);
    push_word(&mut out, r.radiance.g);
    push_word(&mut out, r.radiance.b);
    proof {
        lemma_words_to_bytes_len(spec_ray_words(*r));
        reveal_with_fuel(spec_words_to_bytes, 12);
        assert(out@ =~= spec_words_to_bytes(spec_ray_words(*r)));
    }
    out
}

/// Decodes one ray slot from its 44-byte device layout.
pub fn ray_from_bytes(bytes: &Vec<u8>) -> (r: Ray)
    requires
        bytes@.len() == SIZE_OF_RAY,
    ensures
        spec_words_to_bytes(spec_ray_words(r)) == bytes@,
{
    let ox = coord_from_bits(read_word(bytes, 0));
    let oy = coord_from_bits(read_word(bytes, 4));
    let oz = coord_from_bits(read_word(bytes, 8));
    let mind = read_word(bytes, 12);
    let dx = coord_from_bits(read_word(bytes, 16));
    let dy = coord_from_bits(read_word(bytes, 20));
    let dz = coord_from_bits(read_word(bytes, 24));
    let maxd = read_word(bytes, 28);
    let cr = read_word(bytes, 32);
    let cg = read_word(bytes, 36);
    let cb = read_word(bytes, 40);
    let r = Ray {
        origin: Vec3 { x: ox, y: oy, z: oz },
        min_distance: mind,
        direction: Vec3 { x: dx, y: dy, z: dz },
        max_distance: maxd,
        radiance: Color { r: cr, g: cg, b: cb },
    };
    proof {
        lemma_auto_spec_u32_to_from_le_bytes();
        reveal_with_fuel(spec_words_to_bytes, 12);
        lemma_words_to_bytes_len(spec_ray_words(r));
        assert(spec_words_to_bytes(spec_ray_words(r)) =~= bytes@);
    }
    r
}

/// Round trip: decoding an encoded ray returns it unchanged.
pub proof fn lemma_ray_round_trip(a: Ray, b: Ray)
    requires
        spec_words_to_bytes(spec_ray_words(a)) == spec_words_to_bytes(spec_ray_words(b)),
    ensures
        a == b,
{
    lemma_auto_spec_u32_to_from_le_bytes();
    let wa = spec_ray_words(a);
    let wb = spec_ray_words(b);
    lemma_words_to_bytes_len(wa);
    lemma_words_to_bytes_len(wb);
    assert forall|i: int| 0 <= i < 11 implies wa[i] == wb[i] by {
        lemma_auto_spec_u32_to_from_le_bytes();
        lemma_words_to_bytes_index(wa, i);
        lemma_words_to_bytes_index(wb, i);
        assert(spec_u32_to_le_bytes(wa[i]) == spec_u32_to_le_bytes(wb[i]));
        assert(spec_u32_to_le_bytes(wa[i]).len() == 4);
        assert(spec_u32_to_le_bytes(wb[i]).len() == 4);
        assert(spec_u32_from_le_bytes(spec_u32_to_le_bytes(wa[i])) == wa[i]);
        assert(spec_u32_from_le_bytes(spec_u32_to_le_bytes(wb[i])) == wb[i]);
    }
    assert(wa[0] == wb[0] && wa[1] == wb[1] && wa[2] == wb[2] && wa[3] == wb[3] && wa[4] == wb[4]
        && wa[5] == wb[5] && wa[6] == wb[6] && wa[7] == wb[7] && wa[8] == wb[8] && wa[9] == wb[9]
        && wa[10] == wb[10]);
}

/// Encodes one intersection result into its 16-byte device layout.
pub fn intersection_to_bytes(h: &Intersection) -> (b: Vec<u8>)
    ensures
        b@ == spec_words_to_bytes(spec_intersection_words(*h)),
        b@.len() == SIZE_OF_INTERSECTION,
{
    let mut out: Vec<u8> = Vec::new();
    push_word(&mut out, h.distance);
    push_word(&mut out, h.primitive_index);
    push_word(&mut out, h.coord_u);
    push_word(&mut out, h.coord_v);
    proof {
        lemma_words_to_bytes_len(spec_intersection_words(*h));
        reveal_with_fuel(spec_words_to_bytes, 12);
        assert(out@ =~= spec_words_to_bytes(spec_intersection_words(*h)));
    }
    out
}

/// Decodes one intersection result from its 16-byte device layout.
pub fn intersection_from_bytes(bytes: &Vec<u8>) -> (h: Intersection)
    requires
        bytes@.len() == SIZE_OF_INTERSECTION,
    ensures
        spec_words_to_bytes(spec_intersection_words(h)) == bytes@,
{
    let h = Intersection {
        distance: read_word(bytes, 0),
        primitive_index: read_word(bytes, 4),
        coord_u: read_word(bytes, 8),
        coord_v: read_word(bytes, 12),
    };
    proof {
        lemma_auto_spec_u32_to_from_le_bytes();
        reveal_with_fuel(spec_words_to_bytes, 12);
        lemma_words_to_bytes_len(spec_intersection_words(h));
        assert(spec_words_to_bytes(spec_intersection_words(h)) =~= bytes@);
    }
    h
}

/// Encodes the frame-state record into its 12-byte device layout.
pub fn frame_state_to_bytes(s: &FrameState) -> (b: Vec<u8>)
    ensures
        b@ == spec_words_to_bytes(spec_frame_state_words(*s)),
        b@.len() == SIZE_OF_FRAME_STATE,
{
    let mut out: Vec<u8> = Vec::new();
    push_word(&mut out, s.ray_number);
    push_word(&mut out, s.emitter_triangles_count);
    push_word(&mut out, s.emitter_total_area);
    proof {
        lemma_words_to_bytes_len(spec_frame_state_words(*s));
        reveal_with_fuel(spec_words_to_bytes, 12);
        assert(out@ =~= spec_words_to_bytes(spec_frame_state_words(*s)));
    }
    out
}

/// Decodes the frame-state record from its 12-byte device layout.
pub fn frame_state_from_bytes(bytes: &Vec<u8>) -> (s: FrameState)
    requires
        bytes@.len() == SIZE_OF_FRAME_STATE,
    ensures
        spec_words_to_bytes(spec_frame_state_words(s)) == bytes@,
{
    let s = FrameState {
        ray_number: read_word(bytes, 0),
        emitter_triangles_count: read_word(bytes, 4),
        emitter_total_area: read_word(bytes, 8),
    };
    proof {
        lemma_auto_spec_u32_to_from_le_bytes();
        reveal_with_fuel(spec_words_to_bytes, 12);
        lemma_words_to_bytes_len(spec_frame_state_words(s));
        assert(spec_words_to_bytes(spec_frame_state_words(s)) =~= bytes@);
    }
    s
}

/// Encodes one emitter triangle into its 20-byte device layout.
pub fn emitter_to_bytes(e: &EmitterTriangle) -> (b: Vec<u8>)
    ensures
        b@ == spec_words_to_bytes(spec_emitter_words(*e)),
        b@.len() == SIZE_OF_EMITTER_TRIANGLE,
{
    let mut out: Vec<u8> = Vec::new();
    push_word(&mut out, e.primitive_index);
    push_word(&mut out, e.emissive.r);
    push_word(&mut out, e.emissive.g);
    push_word(&mut out, e.emissive.b);
    push_word(&mut out, e.area);
    proof {
        lemma_words_to_bytes_len(spec_emitter_words(*e));
        reveal_with_fuel(spec_words_to_bytes, 12);
        assert(out@ =~= spec_words_to_bytes(spec_emitter_words(*e)));
    }
    out
}

/// Decodes one emitter triangle from its 20-byte device layout.
pub fn emitter_from_bytes(bytes: &Vec<u8>) -> (e: EmitterTriangle)
    requires
        bytes@.len() == SIZE_OF_EMITTER_TRIANGLE,
    ensures
        spec_words_to_bytes(spec_emitter_words(e)) == bytes@,
{
    let e = EmitterTriangle {
        primitive_index: read_word(bytes, 0),
        emissive: Color { r: read_word(bytes, 4), g: read_word(bytes, 8), b: read_word(bytes, 12) },
        area: read_word(bytes, 16),
    };
    proof {
        lemma_auto_spec_u32_to_from_le_bytes();
        reveal_with_fuel(spec_words_to_bytes, 12);
        lemma_words_to_bytes_len(spec_emitter_words(e));
        assert(spec_words_to_bytes(spec_emitter_words(e)) =~= bytes@);
    }
    e
}

} // verus!
