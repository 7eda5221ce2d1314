//! The per-frame kernel passes: primary-ray generation, intersection
//! shading with direct-light sampling, and shadow resolution.
//!
//! Each pass is a pure per-pixel function with an exact contract; the batch
//! drivers apply it to every pixel of the frame.  The intersection results
//! the passes consume come from the spatial-index backend outside the
//! library, so every function here is specified (and verified) for every
//! possible value of them.

use vstd::prelude::*;
use vstd::arithmetic::div_mod::{
    lemma_multiply_divide_lt,
    lemma_div_pos_is_pos,
    lemma_fundamental_div_mod_converse_mod,
    lemma_fundamental_div_mod_converse_div,
};
use crate::scalar::{Color, spec_q_mul, spec_q_div, q_mul, q_div, spec_isqrt, isqrt_u128};
use crate::vecmath::{Vec3, vec_in_range, coord_in_range, COORD_LIMIT};
use crate::geometry::SceneGeometry;
use crate::emitter::{EmitterSet, EmitterTriangle, spec_sample_index, lemma_emitters_prefix_elements};

verus! {

/// Side length of the square noise tile shared by all pixels of a frame.
pub const NOISE_BLOCK_SIZE: usize = 16;

/// Uniform draws per noise-tile cell: two jitter channels and one
/// light-selection channel.
pub const NOISE_CHANNELS: usize = 3;

/// Total draws uploaded per frame.
pub const NOISE_BUFFER_SIZE: usize = NOISE_BLOCK_SIZE * NOISE_BLOCK_SIZE * NOISE_CHANNELS;

/// The primitive index reported by an intersection query that hit nothing.
pub const MISS_SENTINEL: u32 = 0xffff_ffff;

/// Offset (Q16.16) keeping shadow rays from re-hitting their own surface.
pub const SHADOW_BIAS: u32 = 16;

/// One ray slot: origin, travel interval, direction and the carried
/// radiance payload.  A `max_distance` of zero marks the slot dead: it takes
/// no part in the following occlusion query.
#[derive(Clone, Copy, Debug, PartialEq, Eq, Structural)]
pub struct Ray {
    pub origin: Vec3,
    pub min_distance: u32,
    pub direction: Vec3,
    pub max_distance: u32,
    pub radiance: Color,
}

/// One intersection-query result: hit distance (Q16.16), the primitive hit
/// (or [`MISS_SENTINEL`]) and the barycentric hit coordinates.
#[derive(Clone, Copy, Debug, PartialEq, Eq, Structural)]
pub struct Intersection {
    pub distance: u32,
    pub primitive_index: u32,
    pub coord_u: u32,
    pub coord_v: u32,
}

/// The radiance a pixel keeps when its primary ray hits nothing.
pub open spec fn spec_background() -> Color {
    Color { r: 0, g: 0, b: 0 }
}

/// The radiance a pixel keeps when its primary ray hits nothing.
pub fn background() -> (c: Color)
    ensures
        c == spec_background(),
{
    Color { r: 0, g: 0, b: 0 }
}

/// The jitter drawn for pixel `(x, y)` on channel `c`: the tile repeats
/// every [`NOISE_BLOCK_SIZE`] pixels and the draw is folded into `[0, 2^16)`.
pub open spec fn spec_jitter(noise: Seq<u32>, x: int, y: int, c: int) -> int {
    (noise[((y % 16) * 16 + (x % 16)) * 3 + c] as int) % 65536
}

/// Reads the jitter for pixel `(x, y)` on channel `c` from the noise block.
pub fn noise_jitter(noise: &Vec<u32>, x: usize, y: usize, c: usize) -> (r: u32)
    requires
        noise@.len() == NOISE_BUFFER_SIZE,
        c < NOISE_CHANNELS,
    ensures
        r as int == spec_jitter(noise@, x as int, y as int, c as int),
        r < 65536,
{
    let idx = ((y % 16) * 16 + (x % 16)) * 3 + c;
    noise[idx] % 65536
}

/// The full-width draw for pixel `(x, y)` on channel `c`: the tile repeats
/// every [`NOISE_BLOCK_SIZE`] pixels; all 32 bits are kept, so a scaled use
/// of the draw can span any range.
pub open spec fn spec_noise_at(noise: Seq<u32>, x: int, y: int, c: int) -> u32 {
    noise[((y % 16) * 16 + (x % 16)) * 3 + c]
}

/// Reads the full-width draw for pixel `(x, y)` on channel `c`.
pub fn noise_at(noise: &Vec<u32>, x: usize, y: usize, c: usize) -> (r: u32)
    requires
        noise@.len() == NOISE_BUFFER_SIZE,
        c < NOISE_CHANNELS,
    ensures
        r == spec_noise_at(noise@, x as int, y as int, c as int),
{
    let idx = ((y % 16) * 16 + (x % 16)) * 3 + c;
    noise[idx]
}

/// The primary camera ray of pixel `(x, y)` at resolution `w x h`: origin at
/// the eye, direction through the jittered pixel position on the image
/// plane at unit depth, full travel interval, black payload.
pub open spec fn spec_primary_ray(x: int, y: int, w: int, h: int, jx: int, jy: int) -> Ray {
    Ray {
        origin: Vec3 { x: 0, y: 0, z: 0 },
        min_distance: 0u32,
        direction: Vec3 {
            x: ((2 * (x * 65536 + jx)) / w - 65536) as i32,
            y: ((2 * (y * 65536 + jy)) / h - 65536) as i32,
            z: 65536i32,
        },
        max_distance: u32::MAX,
        radiance: Color { r: 0, g: 0, b: 0 },
    }
}

/// Synthesizes the primary ray of pixel `(x, y)`.
pub fn primary_ray(x: usize, y: usize, w: usize, h: usize, jx: u32, jy: u32) -> (r: Ray)
    requires
        x < w <= 65536,
        y < h <= 65536,
        jx < 65536,
        jy < 65536,
    ensures
        r == spec_primary_ray(x as int, y as int, w as int, h as int, jx as int, jy as int),
        vec_in_range(r.direction),
{
    let pxn: u64 = 2 * ((x as u64) * 65536 + (jx as u64));
    let pyn: u64 = 2 * ((y as u64) * 65536 + (jy as u64));
    proof {
        assert(pxn < (w as u64) * 131072) by (nonlinear_arith)
            requires
                pxn == 2 * ((x as int) * 65536 + (jx as int)),
                x < w,
                jx < 65536,
        ;
        assert(pyn < (h as u64) * 131072) by (nonlinear_arith)
            requires
                pyn == 2 * ((y as int) * 65536 + (jy as int)),
                y < h,
                jy < 65536,
        ;
        lemma_multiply_divide_lt(pxn as int, w as int, 131072);
        lemma_multiply_divide_lt(pyn as int, h as int, 131072);
        lemma_div_pos_is_pos(pxn as int, w as int);
        lemma_div_pos_is_pos(pyn as int, h as int);
    }
    let dx = (pxn / (w as u64)) as i64 - 65536;
    let dy = (pyn / (h as u64)) as i64 - 65536;
    Ray {
        origin: Vec3 { x: 0, y: 0, z: 0 },
        min_distance: 0,
        direction: Vec3 { x: dx as i32, y: dy as i32, z: 65536 },
        max_distance: u32::MAX,
        radiance: Color { r: 0, g: 0, b: 0 },
    }
}

/// Whether `rays` holds exactly the frame's primary rays for resolution
/// `w x h` under the given noise block: one ray per pixel, row-major.
pub open spec fn spec_primary_rays(rays: Seq<Ray>, w: int, h: int, noise: Seq<u32>) -> bool {
    &&& rays.len() == w * h
    &&& forall|p: int|
        0 <= p < rays.len() ==> #[trigger] rays[p] == spec_primary_ray(
            p % w,
            p / w,
            w,
            h,
            spec_jitter(noise, p % w, p / w, 0),
            spec_jitter(noise, p % w, p / w, 1),
        )
}

/// Generates exactly `width * height` primary rays, one per pixel in
/// row-major order, each jittered by the pixel's own noise draws.
pub fn generate_rays(width: usize, height: usize, noise: &Vec<u32>) -> (rays: Vec<Ray>)
    requires
        0 < width <= 65536,
        0 < height <= 65536,
        width * height <= usize::MAX,
        noise@.len() == NOISE_BUFFER_SIZE,
    ensures
        spec_primary_rays(rays@, width as int, height as int, noise@),
{
    let mut rays: Vec<Ray> = Vec::new();
    let mut y: usize = 0;
    while y < height
        invariant
            y <= height,
            0 < width <= 65536,
            0 < height <= 65536,
            width * height <= usize::MAX,
            noise@.len() == NOISE_BUFFER_SIZE,
            rays@.len() == y * width,
            forall|p: int|
                0 <= p < rays@.len() ==> #[trigger] rays@[p] == spec_primary_ray(
                    p % (width as int),
                    p / (width as int),
                    width as int,
                    height as int,
                    spec_jitter(noise@, p % (width as int), p / (width as int), 0),
                    spec_jitter(noise@, p % (width as int), p / (width as int), 1),
                ),
        decreases height - y,
    {
        let mut x: usize = 0;
        while x < width
            invariant
                x <= width,
                y < height,
                0 < width <= 65536,
                0 < height <= 65536,
                width * height <= usize::MAX,
                noise@.len() == NOISE_BUFFER_SIZE,
                rays@.len() == y * width + x,
                forall|p: int|
                    0 <= p < rays@.len() ==> #[trigger] rays@[p] == spec_primary_ray(
                        p % (width as int),
                        p / (width as int),
                        width as int,
                        height as int,
                        spec_jitter(noise@, p % (width as int), p / (width as int), 0),
                        spec_jitter(noise@, p % (width as int), p / (width as int), 1),
                    ),
            decreases width - x,
        {
            let jx = noise_jitter(noise, x, y, 0);
            let jy = noise_jitter(noise, x, y, 1);
            let r = primary_ray(x, y, width, height, jx, jy);
            proof {
                let p0 = y * width + x;
                assert(p0 < width * height) by (nonlinear_arith)
                    requires
                        0 <= x < width,
                        0 <= y < height,
                        p0 == y * width + x,
                ;
                lemma_fundamental_div_mod_converse_mod(
                    p0 as int,
                    width as int,
                    y as int,
                    x as int,
                );
                lemma_fundamental_div_mod_converse_div(
                    p0 as int,
                    width as int,
                    y as int,
                    x as int,
                );
            }
            rays.push(r);
            x += 1;
        }
        proof {
            assert(y * width + width == (y + 1) * width) by (nonlinear_arith);
        }
        y += 1;
    }
    proof {
        assert(rays@.len() == (width as int) * (height as int)) by (nonlinear_arith)
            requires
                rays@.len() == (y as int) * (width as int),
                y == height,
        ;
    }
    rays
}

/// One coordinate of the point a ray reaches after travelling `t` (Q16.16)
/// along direction component `d` from origin component `o`, clamped to the
/// coordinate range.
pub open spec fn spec_advance(o: int, d: int, t: int) -> int {
    let off = if d >= 0 {
        (t * d) / 65536
    } else {
        -((t * (-d)) / 65536)
    };
    spec_clamp(o + off)
}

/// Clamps a coordinate to the library's fixed-point range.
pub open spec fn spec_clamp(c: int) -> int {
    if c < -(COORD_LIMIT as int) {
        -(COORD_LIMIT as int)
    } else if c > COORD_LIMIT as int {
        COORD_LIMIT as int
    } else {
        c
    }
}

/// Advances one ray coordinate by `t` along `d`, clamped to range.
pub fn advance_coord(o: i32, d: i32, t: u32) -> (r: i32)
    ensures
        r as int == spec_advance(o as int, d as int, t as int),
        coord_in_range(r as int),
{
    proof {
        let dd = if d as int >= 0 { d as int } else { -(d as int) };
        assert((t as int) * dd <= 0x7fff_ffff_ffff_ffff) by (nonlinear_arith)
            requires
                0 <= (t as int) < 0x1_0000_0000,
                0 <= dd <= 0x8000_0000,
        ;
    }
    let mag: u64 = if d >= 0 {
        (t as u64) * (d as u64)
    } else {
        (t as u64) * ((-(d as i64)) as u64)
    };
    let off: i64 = (mag / 65536) as i64;
    let shifted: i64 = if d >= 0 {
        o as i64 + off
    } else {
        o as i64 - off
    };
    let clamped: i64 = if shifted < -(COORD_LIMIT as i64) {
        -(COORD_LIMIT as i64)
    } else if shifted > COORD_LIMIT as i64 {
        COORD_LIMIT as i64
    } else {
        shifted
    };
    clamped as i32
}

/// The barycentric weights drawn from two noise values: each folded into
/// `[0, 2^16)` and reflected into the lower-left half so they describe a
/// point inside the triangle.
pub open spec fn spec_bary_weights(n0: int, n1: int) -> (int, int) {
    let b1 = n0 % 65536;
    let b2 = n1 % 65536;
    if b1 + b2 > 65536 {
        (65536 - b1, 65536 - b2)
    } else {
        (b1, b2)
    }
}

/// Draws the barycentric sample weights from two noise values.
pub fn bary_weights(n0: u32, n1: u32) -> (r: (u32, u32))
    ensures
        (r.0 as int, r.1 as int) == spec_bary_weights(n0 as int, n1 as int),
        r.0 + r.1 <= 65536,
{
    let b1 = n0 % 65536;
    let b2 = n1 % 65536;
    if b1 + b2 > 65536 {
        (65536 - b1, 65536 - b2)
    } else {
        (b1, b2)
    }
}

/// One coordinate of the sampled emitter point: the barycentric combination
/// `(1 - b1 - b2) * a0 + b1 * a1 + b2 * a2` in Q16.16, rounded down.
pub open spec fn spec_bary_coord(a0: int, a1: int, a2: int, b1: int, b2: int) -> int {
    let cl = COORD_LIMIT as int;
    ((65536 - b1 - b2) * (a0 + cl) + b1 * (a1 + cl) + b2 * (a2 + cl)) / 65536 - cl
}

/// Computes one coordinate of the sampled emitter point.  The result always
/// lies in the coordinate range because the weights are convex.
pub fn bary_coord(a0: i32, a1: i32, a2: i32, b1: u32, b2: u32) -> (r: i32)
    requires
        coord_in_range(a0 as int),
        coord_in_range(a1 as int),
        coord_in_range(a2 as int),
        b1 + b2 <= 65536,
    ensures
        r as int == spec_bary_coord(a0 as int, a1 as int, a2 as int, b1 as int, b2 as int),
        coord_in_range(r as int),
{
    let cl64 = COORD_LIMIT as u64;
    let u0 = (a0 as i64 + COORD_LIMIT as i64) as u64;
    let u1 = (a1 as i64 + COORD_LIMIT as i64) as u64;
    let u2 = (a2 as i64 + COORD_LIMIT as i64) as u64;
    let b0 = 65536 - b1 - b2;
    proof {
        assert((b0 as int) * (u0 as int) + (b1 as int) * (u1 as int) + (b2 as int) * (u2 as int)
            <= 65536 * (2 * (COORD_LIMIT as int))) by (nonlinear_arith)
            requires
                (b0 as int) + (b1 as int) + (b2 as int) == 65536,
                0 <= b0 as int,
                0 <= b1 as int,
                0 <= b2 as int,
                0 <= u0 as int <= 2 * (COORD_LIMIT as int),
                0 <= u1 as int <= 2 * (COORD_LIMIT as int),
                0 <= u2 as int <= 2 * (COORD_LIMIT as int),
        ;
        lemma_multiply_divide_lt(
            ((b0 as int) * (u0 as int) + (b1 as int) * (u1 as int) + (b2 as int) * (u2 as int)),
            65536,
            2 * (COORD_LIMIT as int) + 1,
        );
        lemma_div_pos_is_pos(
            ((b0 as int) * (u0 as int) + (b1 as int) * (u1 as int) + (b2 as int) * (u2 as int)),
            65536,
        );
    }
    let num: u64 = (b0 as u64) * u0 + (b1 as u64) * u1 + (b2 as u64) * u2;
    let q: u64 = num / 65536;
    (q as i64 - COORD_LIMIT as i64) as i32
}

/// The squared distance between two in-range points, exact (Q32.32).
pub open spec fn spec_dist2(a: Vec3, b: Vec3) -> int {
    let dx = a.x - b.x;
    let dy = a.y - b.y;
    let dz = a.z - b.z;
    dx * dx + dy * dy + dz * dz
}

/// Computes the squared distance between two in-range points.
pub fn dist2(a: &Vec3, b: &Vec3) -> (r: u64)
    requires
        vec_in_range(*a),
        vec_in_range(*b),
    ensures
        r as int == spec_dist2(*a, *b),
        r <= 0x300_0000_0000_0000,
{
    let dx: i64 = a.x as i64 - b.x as i64;
    let dy: i64 = a.y as i64 - b.y as i64;
    let dz: i64 = a.z as i64 - b.z as i64;
    proof {
        lemma_diff_square_bound(dx as int);
        lemma_diff_square_bound(dy as int);
        lemma_diff_square_bound(dz as int);
    }
    (dx * dx + dy * dy + dz * dz) as u64
}

/// The square of a coordinate difference stays within `2^56`.
proof fn lemma_diff_square_bound(d: int)
    requires
        -0x1000_0000 <= d <= 0x1000_0000,
    ensures
        0 <= d * d <= 0x100_0000_0000_0000,
{
    assert(0 <= d * d <= 0x100_0000_0000_0000) by (nonlinear_arith)
        requires
            -0x1000_0000 <= d <= 0x1000_0000,
    ;
}

/// The inverse-square falloff toward the sampled emitter point, in Q16.16:
/// `1 / dist^2` for a squared distance in Q32.32, saturating at the scalar
/// range and zero for a degenerate (zero) distance.
pub open spec fn spec_geometric(d2: int) -> u32 {
    if d2 <= 0 {
        0u32
    } else {
        let g = 0x1_0000_0000_0000int / d2;
        if g > u32::MAX {
            u32::MAX as u32
        } else {
            g as u32
        }
    }
}

/// Computes the inverse-square geometric term.
pub fn geometric_term(d2: u64) -> (r: u32)
    ensures
        r == spec_geometric(d2 as int),
{
    if d2 == 0 {
        0
    } else {
        let g: u64 = 0x1_0000_0000_0000u64 / d2;
        if g > u32::MAX as u64 {
            u32::MAX
        } else {
            g as u32
        }
    }
}

/// A dead ray slot carrying final radiance `c`: it keeps its origin and
/// direction but has no travel interval, so the occlusion query ignores it
/// and no shadow test happens.
pub open spec fn spec_dead_ray(ray: Ray, c: Color) -> Ray {
    Ray {
        origin: ray.origin,
        min_distance: 0u32,
        direction: ray.direction,
        max_distance: 0u32,
        radiance: c,
    }
}

/// Marks a ray slot dead with final radiance `c`.
pub fn dead_ray(ray: &Ray, c: Color) -> (out: Ray)
    ensures
        out == spec_dead_ray(*ray, c),
{
    Ray {
        origin: ray.origin,
        min_distance: 0,
        direction: ray.direction,
        max_distance: 0,
        radiance: c,
    }
}

/// The shading of one pixel's nearest-hit result.
///
/// A miss (or an out-of-range primitive from the backend) keeps the
/// background radiance and casts no shadow ray.  A hit with no emissive
/// geometry (or zero total emitter area) contributes no direct light and
/// casts no shadow ray.  Otherwise the full-width noise draw `n2`, scaled
/// into `[0, total_area)`, selects an emitter with probability proportional
/// to its area, `n0`/`n1` pick a point on it, and the slot becomes the
/// shadow ray toward that point, carrying the tentative contribution
/// `diffuse * emissive * geometric / pdf` with `pdf = area / total_area`.
pub open spec fn spec_shade_pixel(
    g: SceneGeometry,
    es: Seq<EmitterTriangle>,
    total: u32,
    ray: Ray,
    hit: Intersection,
    n0: u32,
    n1: u32,
    n2: u32,
) -> Ray {
    if hit.primitive_index as int >= g.spec_triangle_count() {
        spec_dead_ray(ray, spec_background())
    } else if es.len() == 0 || total == 0 {
        spec_dead_ray(ray, Color { r: 0, g: 0, b: 0 })
    } else {
        let u = ((n2 as int) * (total as int)) / 0x1_0000_0000;
        let i = spec_sample_index(es, u);
        let em = es[i];
        let m = g.spec_material_of(hit.primitive_index as int);
        let hp = Vec3 {
            x: spec_advance(ray.origin.x as int, ray.direction.x as int, hit.distance as int)
                as i32,
            y: spec_advance(ray.origin.y as int, ray.direction.y as int, hit.distance as int)
                as i32,
            z: spec_advance(ray.origin.z as int, ray.direction.z as int, hit.distance as int)
                as i32,
        };
        let corners = g.spec_corners(em.primitive_index as int);
        let w = spec_bary_weights(n0 as int, n1 as int);
        let ep = Vec3 {
            x: spec_bary_coord(
                corners.0.x as int,
                corners.1.x as int,
                corners.2.x as int,
                w.0,
                w.1,
            ) as i32,
            y: spec_bary_coord(
                corners.0.y as int,
                corners.1.y as int,
                corners.2.y as int,
                w.0,
                w.1,
            ) as i32,
            z: spec_bary_coord(
                corners.0.z as int,
                corners.1.z as int,
                corners.2.z as int,
                w.0,
                w.1,
            ) as i32,
        };
        let d2 = spec_dist2(ep, hp);
        let gt = spec_geometric(d2);
        let pdfinv = spec_q_div(total, em.area);
        let light = m.diffuse.spec_modulate(em.emissive).spec_scale(spec_q_mul(gt, pdfinv));
        let dist = spec_isqrt(d2);
        let maxd = if dist > SHADOW_BIAS {
            (dist - SHADOW_BIAS) as u32
        } else {
            0u32
        };
        Ray {
            origin: hp,
            min_distance: SHADOW_BIAS,
            direction: Vec3 {
                x: (ep.x - hp.x) as i32,
                y: (ep.y - hp.y) as i32,
                z: (ep.z - hp.z) as i32,
            },
            max_distance: maxd,
            radiance: light,
        }
    }
}

/// Shades one pixel's nearest-hit result, writing the shadow ray (or a dead
/// slot) back into the pixel's ray slot.  A miss contributes only the
/// background value and triggers no shadow ray.
pub fn shade_pixel(
    g: &SceneGeometry,
    e: &EmitterSet,
    ray: &Ray,
    hit: &Intersection,
    n0: u32,
    n1: u32,
    n2: u32,
) -> (out: Ray)
    requires
        g.wf(),
        e.wf(*g),
        g.spec_triangle_count() <= u32::MAX,
    ensures
        out == spec_shade_pixel(*g, e.emitters@, e.total_area, *ray, *hit, n0, n1, n2),
        hit.primitive_index == MISS_SENTINEL ==> out.max_distance == 0 && out.radiance
            == spec_background(),
{
    let count = g.triangle_count();
    if hit.primitive_index as u64 >= count as u64 {
        return dead_ray(ray, background());
    }
    if e.len() == 0 || e.total_area == 0 {
        return dead_ray(ray, Color::black());
    }
    proof {
        assert((n2 as int) * (e.total_area as int) < 0x1_0000_0000 * (e.total_area as int))
            by (nonlinear_arith)
            requires
                (n2 as int) < 0x1_0000_0000,
                e.total_area as int > 0,
        ;
        lemma_multiply_divide_lt(
            (n2 as int) * (e.total_area as int),
            0x1_0000_0000,
            e.total_area as int,
        );
        lemma_div_pos_is_pos((n2 as int) * (e.total_area as int), 0x1_0000_0000);
    }
    let u = ((n2 as u64) * (e.total_area as u64) / 0x1_0000_0000u64) as u32;
    let i = e.sample(u);
    proof {
        lemma_emitters_prefix_elements(*g, g.spec_triangle_count());
    }
    let em = e.emitters[i];
    let m = g.material_of(hit.primitive_index as usize);
    let hp = Vec3 {
        x: advance_coord(ray.origin.x, ray.direction.x, hit.distance),
        y: advance_coord(ray.origin.y, ray.direction.y, hit.distance),
        z: advance_coord(ray.origin.z, ray.direction.z, hit.distance),
    };
    let (p0, p1, p2) = g.corners(em.primitive_index as usize);
    let (b1, b2) = bary_weights(n0, n1);
    let ep = Vec3 {
        x: bary_coord(p0.x, p1.x, p2.x, b1, b2),
        y: bary_coord(p0.y, p1.y, p2.y, b1, b2),
        z: bary_coord(p0.z, p1.z, p2.z, b1, b2),
    };
    let d2v = dist2(&ep, &hp);
    let gt = geometric_term(d2v);
    let pdfinv = q_div(e.total_area, em.area);
    let factor = q_mul(gt, pdfinv);
    let light = m.diffuse.modulate(&em.emissive).scale(factor);
    let dist = isqrt_u128(d2v as u128);
    proof {
        assert(dist < 0x2000_0000) by (nonlinear_arith)
            requires
                (dist as int) * (dist as int) <= d2v as int,
                d2v as int <= 0x300_0000_0000_0000,
        ;
    }
    let maxd: u32 = if dist > SHADOW_BIAS as u64 {
        (dist - SHADOW_BIAS as u64) as u32
    } else {
        0
    };
    Ray {
        origin: hp,
        min_distance: SHADOW_BIAS,
        direction: Vec3 { x: ep.x - hp.x, y: ep.y - hp.y, z: ep.z - hp.z },
        max_distance: maxd,
        radiance: light,
    }
}

/// The resolved frame sample of one pixel: a dead slot keeps its radiance
/// untouched (it ran no occlusion query), an occluded shadow ray loses its
/// tentative contribution, an unoccluded one keeps it.
pub open spec fn spec_resolve_shadow(ray: Ray, hit: Intersection) -> Color {
    if ray.max_distance == 0 {
        ray.radiance
    } else if hit.primitive_index != MISS_SENTINEL {
        Color { r: 0, g: 0, b: 0 }
    } else {
        ray.radiance
    }
}

/// Resolves one pixel's occlusion result into its final frame sample.
pub fn resolve_shadow(ray: &Ray, hit: &Intersection) -> (c: Color)
    ensures
        c == spec_resolve_shadow(*ray, *hit),
{
    if ray.max_distance == 0 {
        ray.radiance
    } else if hit.primitive_index != MISS_SENTINEL {
        Color { r: 0, g: 0, b: 0 }
    } else {
        ray.radiance
    }
}

/// The whole frame's shading results: pixel `p`'s ray slot shaded against
/// its own nearest-hit result and its own noise draws.
pub open spec fn spec_shaded_rays(
    g: SceneGeometry,
    es: Seq<EmitterTriangle>,
    total: u32,
    rays: Seq<Ray>,
    hits: Seq<Intersection>,
    noise: Seq<u32>,
    w: int,
) -> Seq<Ray> {
    Seq::new(
        rays.len(),
        |p: int|
            spec_shade_pixel(
                g,
                es,
                total,
                rays[p],
                hits[p],
                spec_jitter(noise, p % w, p / w, 0) as u32,
                spec_jitter(noise, p % w, p / w, 1) as u32,
                spec_noise_at(noise, p % w, p / w, 2),
            ),
    )
}

/// Shades every pixel of a frame against its nearest-hit result, reusing the
/// ray buffer slots for the shadow rays.
pub fn handle_intersections(
    g: &SceneGeometry,
    e: &EmitterSet,
    rays: &Vec<Ray>,
    hits: &Vec<Intersection>,
    noise: &Vec<u32>,
    width: usize,
) -> (out: Vec<Ray>)
    requires
        g.wf(),
        e.wf(*g),
        g.spec_triangle_count() <= u32::MAX,
        rays@.len() == hits@.len(),
        noise@.len() == NOISE_BUFFER_SIZE,
        0 < width,
    ensures
        out@ == spec_shaded_rays(
            *g,
            e.emitters@,
            e.total_area,
            rays@,
            hits@,
            noise@,
            width as int,
        ),
{
    let n = rays.len();
    let mut out: Vec<Ray> = Vec::new();
    let mut p: usize = 0;
    while p < n
        invariant
            p <= n,
            n == rays@.len(),
            n == hits@.len(),
            g.wf(),
            e.wf(*g),
            g.spec_triangle_count() <= u32::MAX,
            noise@.len() == NOISE_BUFFER_SIZE,
            0 < width,
            out@.len() == p,
            forall|q: int|
                0 <= q < p ==> #[trigger] out@[q] == spec_shade_pixel(
                    *g,
                    e.emitters@,
                    e.total_area,
                    rays@[q],
                    hits@[q],
                    spec_jitter(noise@, q % (width as int), q / (width as int), 0) as u32,
                    spec_jitter(noise@, q % (width as int), q / (width as int), 1) as u32,
                    spec_noise_at(noise@, q % (width as int), q / (width as int), 2),
                ),
        decreases n - p,
    {
        let x = p % width;
        let y = p / width;
        let n0 = noise_jitter(noise, x, y, 0);
        let n1 = noise_jitter(noise, x, y, 1);
        let n2 = noise_at(noise, x, y, 2);
        let shaded = shade_pixel(g, e, &rays[p], &hits[p], n0, n1, n2);
        out.push(shaded);
        p += 1;
    }
    proof {
        assert(out@ =~= spec_shaded_rays(
            *g,
            e.emitters@,
            e.total_area,
            rays@,
            hits@,
            noise@,
            width as int,
        ));
    }
    out
}

/// The whole frame's final samples: each pixel's shadow result resolved
/// against its own ray slot.
pub open spec fn spec_resolved_samples(rays: Seq<Ray>, hits: Seq<Intersection>) -> Seq<Color> {
    Seq::new(rays.len(), |p: int| spec_resolve_shadow(rays[p], hits[p]))
}

/// Resolves every pixel's occlusion result into the frame's sample buffer.
pub fn resolve_shadows(rays: &Vec<Ray>, hits: &Vec<Intersection>) -> (samples: Vec<Color>)
    requires
        rays@.len() == hits@.len(),
    ensures
        samples@ == spec_resolved_samples(rays@, hits@),
{
    let n = rays.len();
    let mut samples: Vec<Color> = Vec::new();
    let mut p: usize = 0;
    while p < n
        invariant
            p <= n,
            n == rays@.len(),
            n == hits@.len(),
            samples@.len() == p,
            forall|q: int|
                0 <= q < p ==> #[trigger] samples@[q] == spec_resolve_shadow(rays@[q], hits@[q]),
        decreases n - p,
    {
        let c = resolve_shadow(&rays[p], &hits[p]);
        samples.push(c);
        p += 1;
    }
    proof {
        assert(samples@ =~= spec_resolved_samples(rays@, hits@));
    }
    samples
}

} // verus!
