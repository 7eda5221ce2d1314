//! The progressive ray tracer: per-frame orchestration and the frame
//! controller's state machine.
//!
//! A frame runs as a fixed sequence of passes — noise refresh, ray
//! generation, nearest-hit query, intersection shading, any-hit query,
//! shadow resolution, accumulation — with the two intersection queries
//! answered by the spatial-index backend outside the library.  The driver
//! therefore runs each frame in three stages: [`RayTracer::tick_begin`]
//! generates the rays and hands back the nearest-hit query,
//! [`RayTracer::supply_nearest`] consumes the hits and hands back the
//! any-hit query for the shadow rays, and [`RayTracer::supply_shadow`]
//! resolves occlusion and accumulates the frame.
//!
//! The controller starts idle, accumulates frames up to a sample budget,
//! then converges and issues no further work; `reset` restarts accumulation
//! from a full overwrite, and `resize` reallocates every per-pixel buffer.

use vstd::prelude::*;
use crate::scalar::Color;
use crate::geometry::{SceneGeometry, SceneError};
use crate::emitter::{
    EmitterSet,
    spec_raw_area_sum,
    lemma_emitters_prefix_len,
};
use crate::image::AccumulationImage;
use crate::noise::{NoiseSource, mt_stream};
use crate::passes::{
    Ray,
    Intersection,
    MISS_SENTINEL,
    NOISE_BUFFER_SIZE,
    generate_rays,
    handle_intersections,
    resolve_shadows,
    spec_primary_rays,
    spec_shaded_rays,
    spec_resolved_samples,
};

verus! {

/// The per-frame record rewritten before each frame's shading and
/// accumulation passes: the zero-based frame index, the number of emitters
/// and their summed area.
#[derive(Clone, Copy, Debug, PartialEq, Eq, Structural)]
pub struct FrameState {
    pub ray_number: u32,
    pub emitter_triangles_count: u32,
    pub emitter_total_area: u32,
}

/// The frame controller's mode: waiting to start, accumulating frame `n`
/// next, or done with the sample budget.
#[derive(Clone, Copy, Debug, PartialEq, Eq, Structural)]
pub enum Mode {
    Idle,
    Accumulating(u32),
    Converged,
}

/// Where the staged frame stands between the driver's calls.
#[derive(Clone, Copy, Debug, PartialEq, Eq, Structural)]
pub enum Phase {
    Ready,
    NearestPending,
    ShadowPending,
}

/// Which batched intersection query the backend must run next.
#[derive(Clone, Copy, Debug, PartialEq, Eq, Structural)]
pub enum QueryKind {
    Nearest,
    Any,
}

/// One batched intersection query: its kind and the exact number of rays
/// (and result slots) it covers.
#[derive(Clone, Copy, Debug, PartialEq, Eq, Structural)]
pub struct IntersectionQuery {
    pub kind: QueryKind,
    pub ray_count: usize,
}

/// The named GPU passes of one frame, in submission order.
#[derive(Clone, Copy, Debug, PartialEq, Eq, Structural)]
pub enum PassKind {
    TestFill,
    RayGeneration,
    NearestIntersection,
    IntersectionHandling,
    AnyIntersection,
    ShadowHandling,
    Accumulation,
}

/// One frame's worth of passes as handed to the command stream, in order.
pub struct FramePlan {
    pub frame_index: u32,
    pub ray_count: usize,
    pub passes: Vec<PassKind>,
}

/// The fixed pass order of a full frame.
pub open spec fn spec_frame_pass_order() -> Seq<PassKind> {
    seq![
        PassKind::RayGeneration,
        PassKind::NearestIntersection,
        PassKind::IntersectionHandling,
        PassKind::AnyIntersection,
        PassKind::ShadowHandling,
        PassKind::Accumulation,
    ]
}

/// The progressive ray tracer.
pub struct RayTracer {
    pub scene: SceneGeometry,
    pub emitters: EmitterSet,
    pub noise: NoiseSource,
    pub frame_state: FrameState,
    pub ray_buffer: Vec<Ray>,
    pub intersection_buffer: Vec<Intersection>,
    pub output_image: AccumulationImage,
    pub mode: Mode,
    pub phase: Phase,
    pub max_samples: u32,
    pub width: usize,
    pub height: usize,
}

impl RayTracer {
    /// Rays (and intersection results) per frame.
    pub open spec fn spec_ray_count(self) -> int {
        self.width * self.height
    }

    /// The tracer's invariant: valid scene and emitter set, per-pixel
    /// buffers sized to the resolution, and the accumulated frame count in
    /// step with the controller's mode.
    pub open spec fn wf(self) -> bool {
        &&& self.scene.wf()
        &&& self.emitters.wf(self.scene)
        &&& self.noise.wf()
        &&& 0 < self.width <= 65536
        &&& 0 < self.height <= 65536
        &&& self.width * self.height <= usize::MAX
        &&& self.ray_buffer@.len() == self.spec_ray_count()
        &&& self.intersection_buffer@.len() == self.spec_ray_count()
        &&& self.output_image.wf()
        &&& self.output_image.width == self.width
        &&& self.output_image.height == self.height
        &&& match self.mode {
            Mode::Idle => self.output_image.count == 0 && self.phase is Ready,
            Mode::Accumulating(n) => n <= self.max_samples && self.output_image.count == n && (
            self.phase is Ready || n < self.max_samples),
            Mode::Converged => self.output_image.count == self.max_samples
                && self.phase is Ready,
        }
    }

    /// Builds a tracer over a validated scene: derives the emitter set,
    /// allocates the per-pixel buffers and the output image, and starts
    /// idle.  Fails exactly when the scene's summed emitter area leaves the
    /// fixed-point range.
    pub fn new(
        scene: SceneGeometry,
        width: usize,
        height: usize,
        max_samples: u32,
        seed: u32,
    ) -> (r: Result<RayTracer, SceneError>)
        requires
            scene.wf(),
            0 < width <= 65536,
            0 < height <= 65536,
            width * height <= usize::MAX,
        ensures
            match r {
                Ok(rt) => {
                    &&& rt.wf()
                    &&& rt.scene == scene
                    &&& rt.mode == Mode::Idle
                    &&& rt.phase == Phase::Ready
                    &&& rt.width == width
                    &&& rt.height == height
                    &&& rt.max_samples == max_samples
                    &&& rt.output_image.count == 0
                    &&& rt.noise.spec_seed() == seed
                    &&& rt.noise.spec_drawn() == 0
                },
                Err(e) => e == SceneError::EmitterAreaOverflow,
            },
            r is Ok <==> spec_raw_area_sum(scene, scene.spec_triangle_count()) <= u32::MAX,
    {
        let emitters = match EmitterSet::derive(&scene) {
            Ok(s) => s,
            Err(e) => {
                return Err(e);
            },
        };
        let noise = NoiseSource::new(seed);
        let output_image = AccumulationImage::new(width, height);
        let ray_buffer = zeroed_rays(width * height);
        let intersection_buffer = miss_results(width * height);
        Ok(
            RayTracer {
                scene,
                emitters,
                noise,
                frame_state: FrameState {
                    ray_number: 0,
                    emitter_triangles_count: 0,
                    emitter_total_area: 0,
                },
                ray_buffer,
                intersection_buffer,
                output_image,
                mode: Mode::Idle,
                phase: Phase::Ready,
                max_samples,
                width,
                height,
            },
        )
    }

    /// Whether the sample budget has been reached.
    pub fn is_converged(&self) -> (b: bool)
        ensures
            b == (self.mode is Converged),
    {
        match self.mode {
            Mode::Converged => true,
            _ => false,
        }
    }

    /// The accumulated output image, read by the presentation step.
    pub fn output_texture(&self) -> (im: &AccumulationImage)
        ensures
            im == &self.output_image,
    {
        &self.output_image
    }

    /// Starts or restarts accumulation: the controller moves to
    /// `Accumulating(0)` and the running mean is re-zeroed, so the next
    /// frame overwrites the image rather than blending with it.  Any staged
    /// frame is discarded.
    pub fn reset(&mut self)
        requires
            old(self).wf(),
        ensures
            final (self).wf(),
            final (self).mode == Mode::Accumulating(0u32),
            final (self).phase == Phase::Ready,
            final (self).output_image.count == 0,
            final (self).width == old(self).width,
            final (self).height == old(self).height,
            final (self).scene == old(self).scene,
            final (self).max_samples == old(self).max_samples,
    {
        self.output_image.reset();
        self.mode = Mode::Accumulating(0);
        self.phase = Phase::Ready;
    }

    /// Changes the output resolution: the ray buffer, the intersection
    /// buffer and the output image are discarded and reallocated at the new
    /// pixel count, nothing of the old resolution survives, and
    /// accumulation restarts at frame zero.
    pub fn resize(&mut self, width: usize, height: usize)
        requires
            old(self).wf(),
            0 < width <= 65536,
            0 < height <= 65536,
            width * height <= usize::MAX,
        ensures
            final (self).wf(),
            final (self).width == width,
            final (self).height == height,
            final (self).ray_buffer@.len() == width * height,
            final (self).intersection_buffer@.len() == width * height,
            final (self).output_image.width == width,
            final (self).output_image.height == height,
            final (self).output_image.count == 0,
            final (self).mode == Mode::Accumulating(0u32),
            final (self).phase == Phase::Ready,
            final (self).scene == old(self).scene,
            final (self).max_samples == old(self).max_samples,
    {
        self.width = width;
        self.height = height;
        self.ray_buffer = zeroed_rays(width * height);
        self.intersection_buffer = miss_results(width * height);
        self.output_image = AccumulationImage::new(width, height);
        self.mode = Mode::Accumulating(0);
        self.phase = Phase::Ready;
    }

    /// Begins one frame.  While accumulating below the sample budget this
    /// refreshes the noise block, rewrites the frame state, generates
    /// exactly one jittered primary ray per pixel, and returns the
    /// nearest-hit query over all of them.  At the budget the controller
    /// converges; once idle or converged a tick is a no-op and no render
    /// work is issued.
    pub fn tick_begin(&mut self) -> (q: Option<IntersectionQuery>)
        requires
            old(self).wf(),
            old(self).phase == Phase::Ready,
        ensures
            final (self).wf(),
            final (self).scene == old(self).scene,
            final (self).emitters == old(self).emitters,
            final (self).width == old(self).width,
            final (self).height == old(self).height,
            final (self).max_samples == old(self).max_samples,
            final (self).output_image == old(self).output_image,
            match old(self).mode {
                Mode::Accumulating(n) => if n < old(self).max_samples {
                    &&& q == Some(
                        IntersectionQuery {
                            kind: QueryKind::Nearest,
                            ray_count: (old(self).width * old(self).height) as usize,
                        },
                    )
                    &&& final (self).mode == old(self).mode
                    &&& final (self).phase == Phase::NearestPending
                    &&& final (self).noise.spec_seed() == old(self).noise.spec_seed()
                    &&& final (self).noise.spec_drawn() == old(self).noise.spec_drawn()
                        + NOISE_BUFFER_SIZE
                    &&& forall|j: int|
                        0 <= j < NOISE_BUFFER_SIZE
                            ==> final (self).noise.spec_block()[j] == mt_stream(
                            old(self).noise.spec_seed(),
                            old(self).noise.spec_drawn() + j,
                        )
                    &&& spec_primary_rays(
                        final (self).ray_buffer@,
                        old(self).width as int,
                        old(self).height as int,
                        final (self).noise.spec_block(),
                    )
                    &&& final (self).frame_state == (FrameState {
                        ray_number: n,
                        emitter_triangles_count: old(self).emitters.emitters@.len() as u32,
                        emitter_total_area: old(self).emitters.total_area,
                    })
                } else {
                    &&& q is None
                    &&& final (self).mode == Mode::Converged
                    &&& final (self).phase == Phase::Ready
                    &&& final (self).ray_buffer@ == old(self).ray_buffer@
                    &&& final (self).intersection_buffer@ == old(self).intersection_buffer@
                    &&& final (self).frame_state == old(self).frame_state
                    &&& final (self).noise == old(self).noise
                },
                _ => {
                    &&& q is None
                    &&& *final (self) == *old(self)
                },
            },
    {
        match self.mode {
            Mode::Accumulating(n) => {
                if n < self.max_samples {
                    self.noise.refresh();
                    let rays = generate_rays(self.width, self.height, self.noise.block());
                    self.ray_buffer = rays;
                    proof {
                        lemma_emitters_prefix_len(self.scene, self.scene.spec_triangle_count());
                    }
                    self.frame_state = FrameState {
                        ray_number: n,
                        emitter_triangles_count: self.emitters.len() as u32,
                        emitter_total_area: self.emitters.total_area,
                    };
                    self.phase = Phase::NearestPending;
                    Some(
                        IntersectionQuery {
                            kind: QueryKind::Nearest,
                            ray_count: self.width * self.height,
                        },
                    )
                } else {
                    self.mode = Mode::Converged;
                    None
                }
            },
            _ => None,
        }
    }

    /// Consumes the nearest-hit results: every pixel's ray slot is shaded
    /// against its own result — a miss keeps the background and goes dead,
    /// a hit becomes the shadow ray toward an area-sampled emitter point —
    /// and the any-hit query over the same slots comes back.
    pub fn supply_nearest(&mut self, hits: Vec<Intersection>) -> (q: IntersectionQuery)
        requires
            old(self).wf(),
            old(self).phase == Phase::NearestPending,
            hits@.len() == old(self).spec_ray_count(),
        ensures
            final (self).wf(),
            final (self).phase == Phase::ShadowPending,
            final (self).mode == old(self).mode,
            final (self).scene == old(self).scene,
            final (self).emitters == old(self).emitters,
            final (self).noise == old(self).noise,
            final (self).width == old(self).width,
            final (self).height == old(self).height,
            final (self).max_samples == old(self).max_samples,
            final (self).output_image == old(self).output_image,
            final (self).frame_state == old(self).frame_state,
            final (self).intersection_buffer@ == hits@,
            final (self).ray_buffer@ == spec_shaded_rays(
                old(self).scene,
                old(self).emitters.emitters@,
                old(self).emitters.total_area,
                old(self).ray_buffer@,
                hits@,
                old(self).noise.spec_block(),
                old(self).width as int,
            ),
            q == (IntersectionQuery {
                kind: QueryKind::Any,
                ray_count: (old(self).width * old(self).height) as usize,
            }),
    {
        let shaded = handle_intersections(
            &self.scene,
            &self.emitters,
            &self.ray_buffer,
            &hits,
            self.noise.block(),
            self.width,
        );
        self.ray_buffer = shaded;
        self.intersection_buffer = hits;
        self.phase = Phase::ShadowPending;
        IntersectionQuery { kind: QueryKind::Any, ray_count: self.width * self.height }
    }

    /// Consumes the any-hit (occlusion) results: each pixel's tentative
    /// contribution survives exactly when its shadow ray was live and
    /// unoccluded, the resolved frame joins the running mean, and the
    /// controller advances to the next frame index.
    pub fn supply_shadow(&mut self, hits: Vec<Intersection>)
        requires
            old(self).wf(),
            old(self).phase == Phase::ShadowPending,
            hits@.len() == old(self).spec_ray_count(),
        ensures
            final (self).wf(),
            final (self).phase == Phase::Ready,
            final (self).scene == old(self).scene,
            final (self).emitters == old(self).emitters,
            final (self).noise == old(self).noise,
            final (self).width == old(self).width,
            final (self).height == old(self).height,
            final (self).max_samples == old(self).max_samples,
            final (self).ray_buffer@ == old(self).ray_buffer@,
            final (self).intersection_buffer@ == hits@,
            old(self).mode matches Mode::Accumulating(n) ==> final (self).mode
                == Mode::Accumulating((n + 1) as u32),
            final (self).output_image.count == old(self).output_image.count + 1,
            final (self).output_image.history@ == old(self).output_image.history@.push(
                spec_resolved_samples(old(self).ray_buffer@, hits@),
            ),
    {
        let samples = resolve_shadows(&self.ray_buffer, &hits);
        self.output_image.accumulate(&samples);
        self.intersection_buffer = hits;
        match self.mode {
            Mode::Accumulating(n) => {
                self.mode = Mode::Accumulating(n + 1);
            },
            _ => {
                proof {
                    assert(false);
                }
            },
        }
        self.phase = Phase::Ready;
    }

    /// The plan of one full frame as appended to the command stream: the six
    /// passes in their fixed order, with both intersection queries sized to
    /// exactly one result per pixel.
    pub fn encode_into(&self, ray_number: u32) -> (plan: FramePlan)
        requires
            self.wf(),
        ensures
            plan.frame_index == ray_number,
            plan.ray_count == self.spec_ray_count(),
            plan.passes@ == spec_frame_pass_order(),
    {
        let mut passes: Vec<PassKind> = Vec::new();
        passes.push(PassKind::RayGeneration);
        passes.push(PassKind::NearestIntersection);
        passes.push(PassKind::IntersectionHandling);
        passes.push(PassKind::AnyIntersection);
        passes.push(PassKind::ShadowHandling);
        passes.push(PassKind::Accumulation);
        proof {
            assert(passes@ =~= spec_frame_pass_order());
        }
        FramePlan { frame_index: ray_number, ray_count: self.width * self.height, passes }
    }

    /// The plan of the debug frame: a single fill pass over the image.
    pub fn encode_into_test(&self) -> (plan: FramePlan)
        requires
            self.wf(),
        ensures
            plan.ray_count == self.spec_ray_count(),
            plan.passes@ == seq![PassKind::TestFill],
    {
        let mut passes: Vec<PassKind> = Vec::new();
        passes.push(PassKind::TestFill);
        proof {
            assert(passes@ =~= seq![PassKind::TestFill]);
        }
        FramePlan { frame_index: 0, ray_count: self.width * self.height, passes }
    }

    /// The dispatch grid for the frame's kernels: thread groups of 8 by 8,
    /// rounded up so the grid covers every pixel (out-of-range threads are
    /// masked by the per-pixel bounds of the passes themselves).
    pub fn dispatch_thread_groups(&self) -> (r: (usize, usize))
        requires
            self.wf(),
        ensures
            r.0 == ((self.width + 7) / 8) as int,
            r.1 == ((self.height + 7) / 8) as int,
            r.0 * 8 >= self.width,
            r.1 * 8 >= self.height,
    {
        let gx = (self.width + 7) / 8;
        let gy = (self.height + 7) / 8;
        proof {
            vstd::arithmetic::div_mod::lemma_fundamental_div_mod((self.width + 7) as int, 8);
            vstd::arithmetic::div_mod::lemma_fundamental_div_mod((self.height + 7) as int, 8);
        }
        (gx, gy)
    }
}

/// A buffer of `n` inert ray slots, allocated whole.
fn zeroed_rays(n: usize) -> (rays: Vec<Ray>)
    ensures
        rays@.len() == n,
{
    let mut rays: Vec<Ray> = Vec::new();
    let mut i: usize = 0;
    while i < n
        invariant
            i <= n,
            rays@.len() == i,
        decreases n - i,
    {
        rays.push(
            Ray {
                origin: crate::vecmath::Vec3 { x: 0, y: 0, z: 0 },
                min_distance: 0,
                direction: crate::vecmath::Vec3 { x: 0, y: 0, z: 0 },
                max_distance: 0,
                radiance: Color { r: 0, g: 0, b: 0 },
            },
        );
        i += 1;
    }
    rays
}

/// A buffer of `n` miss results, allocated whole.
fn miss_results(n: usize) -> (hits: Vec<Intersection>)
    ensures
        hits@.len() == n,
{
    let mut hits: Vec<Intersection> = Vec::new();
    let mut i: usize = 0;
    while i < n
        invariant
            i <= n,
            hits@.len() == i,
        decreases n - i,
    {
        hits.push(
            Intersection { distance: 0, primitive_index: MISS_SENTINEL, coord_u: 0, coord_v: 0 },
        );
        i += 1;
    }
    hits
}

} // verus!
