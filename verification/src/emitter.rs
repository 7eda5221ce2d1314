//! Emissive triangles and area-proportional light sampling.
//!
//! At load time every triangle whose material emits light becomes an
//! [`EmitterTriangle`] carrying its surface area.  A uniform draw below the
//! summed area selects one emitter through the cumulative-weight method, so
//! each emitter is chosen with probability `area / total_area` exactly.

use vstd::prelude::*;
use crate::scalar::Color;
use crate::geometry::{SceneGeometry, SceneError};
use crate::vecmath::{spec_triangle_area_q16, triangle_area_q16, lemma_triangle_area_nonneg};

verus! {

/// One light-emitting triangle: the triangle it indexes, its emitted
/// radiance and its surface area in Q16.16.
#[derive(Clone, Copy, Debug, PartialEq, Eq, Structural)]
pub struct EmitterTriangle {
    pub primitive_index: u32,
    pub emissive: Color,
    pub area: u32,
}

/// The sum of the emitters' areas.
pub open spec fn spec_area_sum(s: Seq<EmitterTriangle>) -> int
    decreases s.len(),
{
    if s.len() == 0 {
        0
    } else {
        spec_area_sum(s.drop_last()) + s.last().area
    }
}

/// Extending a prefix by one emitter adds that emitter's area to the sum.
pub proof fn lemma_area_sum_take_step(s: Seq<EmitterTriangle>, i: int)
    requires
        0 <= i < s.len(),
    ensures
        spec_area_sum(s.take(i + 1)) == spec_area_sum(s.take(i)) + s[i].area,
{
    assert(s.take(i + 1).drop_last() =~= s.take(i));
    assert(s.take(i + 1).last() == s[i]);
}

/// Every prefix sum is bounded by the full sum.
pub proof fn lemma_area_sum_prefix_le(s: Seq<EmitterTriangle>, i: int)
    requires
        0 <= i <= s.len(),
    ensures
        spec_area_sum(s.take(i)) <= spec_area_sum(s),
    decreases s.len() - i,
{
    if i == s.len() {
        assert(s.take(i) =~= s);
    } else {
        lemma_area_sum_take_step(s, i);
        lemma_area_sum_prefix_le(s, i + 1);
    }
}

/// Whether triangle `t` of the scene emits light.
pub open spec fn spec_is_emitter(g: SceneGeometry, t: int) -> bool {
    g.spec_material_of(t).emissive.spec_is_lit()
}

/// The exact (untruncated) fixed-point area of triangle `t`.
pub open spec fn spec_emitter_area(g: SceneGeometry, t: int) -> int {
    let (p0, p1, p2) = g.spec_corners(t);
    spec_triangle_area_q16(p0, p1, p2)
}

/// The emitter record derived from triangle `t`.  Meaningful when the
/// triangle's area fits a `u32`, which emitter derivation checks.
pub open spec fn spec_emitter_of(g: SceneGeometry, t: int) -> EmitterTriangle {
    EmitterTriangle {
        primitive_index: t as u32,
        emissive: g.spec_material_of(t).emissive,
        area: spec_emitter_area(g, t) as u32,
    }
}

/// The emitters among the first `t` triangles, in triangle order.
pub open spec fn spec_emitters_prefix(g: SceneGeometry, t: int) -> Seq<EmitterTriangle>
    decreases t,
{
    if t <= 0 {
        Seq::empty()
    } else {
        let rest = spec_emitters_prefix(g, t - 1);
        if spec_is_emitter(g, t - 1) {
            rest.push(spec_emitter_of(g, t - 1))
        } else {
            rest
        }
    }
}

/// All emitters of the scene, in triangle order.
pub open spec fn spec_emitters(g: SceneGeometry) -> Seq<EmitterTriangle> {
    spec_emitters_prefix(g, g.spec_triangle_count())
}

/// The exact summed area of the emitters among the first `t` triangles,
/// before any truncation to `u32`.
pub open spec fn spec_raw_area_sum(g: SceneGeometry, t: int) -> int
    decreases t,
{
    if t <= 0 {
        0
    } else {
        spec_raw_area_sum(g, t - 1) + if spec_is_emitter(g, t - 1) {
            spec_emitter_area(g, t - 1)
        } else {
            0
        }
    }
}

/// The raw area sum grows monotonically with the triangle prefix.
pub proof fn lemma_raw_area_sum_mono(g: SceneGeometry, t: int, u: int)
    requires
        0 <= t <= u,
    ensures
        spec_raw_area_sum(g, t) <= spec_raw_area_sum(g, u),
    decreases u - t,
{
    if t < u {
        lemma_raw_area_sum_mono(g, t, u - 1);
        if spec_is_emitter(g, u - 1) {
            let (p0, p1, p2) = g.spec_corners(u - 1);
            lemma_triangle_area_nonneg(p0, p1, p2);
        }
    }
}

/// The scene's emissive triangles plus their summed area.
pub struct EmitterSet {
    pub emitters: Vec<EmitterTriangle>,
    pub total_area: u32,
}

impl EmitterSet {
    /// The normalization invariant: the stored total is the exact sum of the
    /// emitters' areas.
    pub open spec fn area_consistent(self) -> bool {
        self.total_area as int == spec_area_sum(self.emitters@)
    }

    /// Well-formedness against the scene the set was derived from: the list
    /// holds exactly the scene's emissive triangles and the total is the sum
    /// of their areas.
    pub open spec fn wf(self, g: SceneGeometry) -> bool {
        &&& self.emitters@ == spec_emitters(g)
        &&& self.area_consistent()
    }

    /// Number of emitters.
    pub fn len(&self) -> (n: usize)
        ensures
            n == self.emitters@.len(),
    {
        self.emitters.len()
    }

    /// Derives the emitter list of a scene: one record per triangle whose
    /// material is emissive, each carrying the triangle's surface area, and
    /// the exact sum of those areas.  Fails exactly when the summed emitter
    /// area leaves the Q16.16 range.
    pub fn derive(g: &SceneGeometry) -> (r: Result<EmitterSet, SceneError>)
        requires
            g.wf(),
            g.spec_triangle_count() <= u32::MAX,
        ensures
            match r {
                Ok(s) => s.wf(*g),
                Err(e) => e == SceneError::EmitterAreaOverflow,
            },
            r is Ok <==> spec_raw_area_sum(*g, g.spec_triangle_count()) <= u32::MAX,
    {
        let count = g.triangle_count();
        let mut emitters: Vec<EmitterTriangle> = Vec::new();
        let mut total: u64 = 0;
        let mut t: usize = 0;
        while t < count
            invariant
                g.wf(),
                g.spec_triangle_count() <= u32::MAX,
                count == g.spec_triangle_count(),
                t <= count,
                emitters@ == spec_emitters_prefix(*g, t as int),
                total as int == spec_raw_area_sum(*g, t as int),
                total as int == spec_area_sum(emitters@),
                total <= u32::MAX,
            decreases count - t,
        {
            let m = g.material_of(t);
            if m.emissive.is_lit() {
                let (p0, p1, p2) = g.corners(t);
                let area = triangle_area_q16(&p0, &p1, &p2);
                if area > u32::MAX as u64 - total {
                    proof {
                        lemma_raw_area_sum_mono(*g, t as int + 1, count as int);
                    }
                    return Err(SceneError::EmitterAreaOverflow);
                }
                let e = EmitterTriangle {
                    primitive_index: t as u32,
                    emissive: m.emissive,
                    area: area as u32,
                };
                emitters.push(e);
                total = total + area;
                proof {
                    assert(emitters@.drop_last() =~= spec_emitters_prefix(*g, t as int));
                }
            }
            t += 1;
        }
        Ok(EmitterSet { emitters, total_area: total as u32 })
    }

    /// Selects the emitter whose cumulative-area interval contains the
    /// uniform draw `u`: the result `i` is the unique index with
    /// `sum(areas[..i]) <= u < sum(areas[..i]) + areas[i]`.  Drawing `u`
    /// uniformly below the total therefore selects each emitter with
    /// probability `area / total_area`, and an emitter of zero area is never
    /// selected.
    pub fn sample(&self, u: u32) -> (i: usize)
        requires
            self.area_consistent(),
            u < self.total_area,
        ensures
            spec_selects(self.emitters@, u as int, i as int),
            i == spec_sample_index(self.emitters@, u as int),
    {
        let len = self.emitters.len();
        let mut i: usize = 0;
        let mut acc: u32 = 0;
        proof {
            assert(self.emitters@.take(0) =~= Seq::<EmitterTriangle>::empty());
            if len == 0 {
                assert(false);
            }
        }
        loop
            invariant
                i < len,
                len == self.emitters@.len(),
                u < self.total_area,
                self.total_area as int == spec_area_sum(self.emitters@),
                acc as int == spec_area_sum(self.emitters@.take(i as int)),
                acc <= u,
            decreases len - i,
        {
            let a = self.emitters[i].area;
            proof {
                lemma_area_sum_take_step(self.emitters@, i as int);
            }
            if (u as u64) < (acc as u64) + (a as u64) {
                proof {
                    lemma_selects_exists(self.emitters@, u as int);
                    lemma_sample_unique(
                        self.emitters@,
                        u as int,
                        i as int,
                        spec_sample_index(self.emitters@, u as int),
                    );
                }
                return i;
            }
            proof {
                lemma_area_sum_prefix_le(self.emitters@, i as int + 1);
                if i + 1 == len {
                    assert(self.emitters@.take(len as int) =~= self.emitters@);
                    assert(false);
                }
            }
            acc = acc + a;
            i = i + 1;
        }
    }
}

/// There are never more emitters than triangles.
pub proof fn lemma_emitters_prefix_len(g: SceneGeometry, t: int)
    requires
        0 <= t,
    ensures
        spec_emitters_prefix(g, t).len() <= t,
    decreases t,
{
    if t > 0 {
        lemma_emitters_prefix_len(g, t - 1);
    }
}

/// Every record in the derived emitter list describes an emissive triangle
/// of the scene, under its own index.
pub proof fn lemma_emitters_prefix_elements(g: SceneGeometry, t: int)
    requires
        0 <= t <= u32::MAX,
    ensures
        forall|j: int|
            0 <= j < spec_emitters_prefix(g, t).len() ==> {
                let e = #[trigger] spec_emitters_prefix(g, t)[j];
                &&& e.primitive_index < t
                &&& e == spec_emitter_of(g, e.primitive_index as int)
                &&& spec_is_emitter(g, e.primitive_index as int)
            },
    decreases t,
{
    if t > 0 {
        lemma_emitters_prefix_elements(g, t - 1);
        let prev = spec_emitters_prefix(g, t - 1);
        let cur = spec_emitters_prefix(g, t);
        if spec_is_emitter(g, t - 1) {
            let e = spec_emitter_of(g, t - 1);
            assert(e.primitive_index as int == t - 1);
            assert(forall|j: int| 0 <= j < prev.len() ==> #[trigger] cur[j] == prev[j]);
            assert(cur[cur.len() - 1] == e);
        }
    }
}
pub open spec fn spec_selects(s: Seq<EmitterTriangle>, u: int, i: int) -> bool {
    &&& 0 <= i < s.len()
    &&& spec_area_sum(s.take(i)) <= u
    &&& u < spec_area_sum(s.take(i)) + s[i].area
}

/// The emitter selected by draw `u`: the unique index whose cumulative-area
/// interval contains `u`.
pub open spec fn spec_sample_index(s: Seq<EmitterTriangle>, u: int) -> int {
    choose|i: int| spec_selects(s, u, i)
}

/// Every draw below the total selects some emitter, so `spec_sample_index`
/// denotes it.
pub proof fn lemma_selects_exists(s: Seq<EmitterTriangle>, u: int)
    requires
        0 <= u < spec_area_sum(s),
    ensures
        spec_selects(s, u, spec_sample_index(s, u)),
    decreases s.len(),
{
    if s.len() > 0 {
        let k = s.len() as int - 1;
        if u >= spec_area_sum(s.take(k)) {
            assert(s.take(s.len() as int) =~= s);
            lemma_area_sum_take_step(s, k);
            assert(spec_selects(s, u, k));
        } else {
            let t = s.take(k);
            lemma_selects_exists(t, u);
            let i = spec_sample_index(t, u);
            assert(t.take(i) =~= s.take(i));
            assert(t[i] == s[i]);
            assert(spec_selects(s, u, i));
        }
        assert(exists|i: int| spec_selects(s, u, i));
    }
}

/// Law: the cumulative-area intervals are disjoint, so the index returned by
/// [`EmitterSet::sample`] is the only one whose interval contains the draw.
/// Together with the well-formedness invariant `total_area == spec_area_sum`,
/// this makes each emitter's selection probability under a uniform draw
/// exactly `area / total_area`.
pub proof fn lemma_sample_unique(s: Seq<EmitterTriangle>, u: int, i: int, j: int)
    requires
        0 <= i < s.len(),
        0 <= j < s.len(),
        spec_area_sum(s.take(i)) <= u < spec_area_sum(s.take(i)) + s[i].area,
        spec_area_sum(s.take(j)) <= u < spec_area_sum(s.take(j)) + s[j].area,
    ensures
        i == j,
{
    if i < j {
        lemma_area_sum_take_mono(s, i + 1, j);
        lemma_area_sum_take_step(s, i);
    } else if j < i {
        lemma_area_sum_take_mono(s, j + 1, i);
        lemma_area_sum_take_step(s, j);
    }
}

/// Prefix sums grow monotonically with the prefix length.
pub proof fn lemma_area_sum_take_mono(s: Seq<EmitterTriangle>, i: int, j: int)
    requires
        0 <= i <= j <= s.len(),
    ensures
        spec_area_sum(s.take(i)) <= spec_area_sum(s.take(j)),
    decreases j - i,
{
    if i < j {
        lemma_area_sum_take_step(s, i);
        lemma_area_sum_take_mono(s, i + 1, j);
    }
}

} // verus!
