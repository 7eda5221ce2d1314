//! A minimal single-triangle intersection pipeline.
//!
//! The smallest client of the backend configuration: one hard-wired
//! triangle, a ray generator and an intersection handler, with no shading
//! or accumulation.  It exercises the acceleration-structure build
//! contract on concrete data and produces the frame plan a driver encodes.

use vstd::prelude::*;
use crate::image::AccumulationImage;
use crate::layout::{SIZE_OF_RAY, SIZE_OF_INTERSECTION};
use crate::passes::{Ray, Intersection, MISS_SENTINEL};
use crate::rayintersector::{
    RayIntersector,
    TriangleAccelerationStructure,
    MPSRayDataType,
    MPSIntersectionDataType,
    MPSIntersectionType,
    MPSDataType,
};
use crate::raytracer::{FramePlan, IntersectionQuery, PassKind, QueryKind};
use crate::vecmath::Vec3;
use crate::scalar::Color;

verus! {

/// The demo pipeline: one triangle in its acceleration structure, the
/// configured intersector, and per-pixel buffers at the output resolution.
pub struct Intersector {
    pub acceleration_structure: TriangleAccelerationStructure,
    pub ray_intersector: RayIntersector,
    pub ray_buffer: Vec<Ray>,
    pub intersection_buffer: Vec<Intersection>,
    pub output_image: AccumulationImage,
    pub width: usize,
    pub height: usize,
}

impl Intersector {
    /// The invariant: buffers sized to the resolution and a built
    /// acceleration structure.
    pub open spec fn wf(self) -> bool {
        &&& 0 < self.width <= 65536
        &&& 0 < self.height <= 65536
        &&& self.width * self.height <= usize::MAX
        &&& self.ray_buffer@.len() == self.width * self.height
        &&& self.intersection_buffer@.len() == self.width * self.height
        &&& self.output_image.wf()
        &&& self.output_image.width == self.width
        &&& self.output_image.height == self.height
        &&& self.acceleration_structure.built
    }

    /// Builds the demo pipeline: one triangle spanning the view, an
    /// intersector configured with the library's ray and intersection
    /// strides, and buffers at the given resolution.  The hard-wired
    /// triangle — corners (0.25, 0.25, 0), (0.75, 0.25, 0), (0.5, 0.75, 0)
    /// in Q16.16 — always passes the acceleration structure's validation.
    pub fn new(width: usize, height: usize) -> (r: Intersector)
        requires
            0 < width <= 65536,
            0 < height <= 65536,
            width * height <= usize::MAX,
        ensures
            r.wf(),
            r.width == width,
            r.height == height,
            r.acceleration_structure.vertex_data@ == seq![
                16384i32, 16384, 0, 49152, 16384, 0, 32768, 49152, 0,
            ],
            r.acceleration_structure.index_data@ == seq![0u32, 1u32, 2u32],
            r.acceleration_structure.triangle_count == 1,
            r.acceleration_structure.index_type == MPSDataType::uInt32,
            r.acceleration_structure.vertex_stride == 12,
            r.ray_intersector.ray_stride == SIZE_OF_RAY as u64,
            r.ray_intersector.ray_data_type
                == MPSRayDataType::originMinDistanceDirectionMaxDistance,
            r.ray_intersector.intersection_stride == SIZE_OF_INTERSECTION as u64,
            r.ray_intersector.intersection_data_type
                == MPSIntersectionDataType::distancePrimitiveIndexCoordinates,
    {
        let mut vertex_data: Vec<i32> = Vec::new();
        vertex_data.push(16384);
        vertex_data.push(16384);
        vertex_data.push(0);
        vertex_data.push(49152);
        vertex_data.push(16384);
        vertex_data.push(0);
        vertex_data.push(32768);
        vertex_data.push(49152);
        vertex_data.push(0);
        let mut index_data: Vec<u32> = Vec::new();
        index_data.push(0);
        index_data.push(1);
        index_data.push(2);
        proof {
            assert(vertex_data@ =~= seq![16384i32, 16384, 0, 49152, 16384, 0, 32768, 49152, 0]);
            assert(index_data@ =~= seq![0u32, 1u32, 2u32]);
        }

        let mut acceleration_structure = TriangleAccelerationStructure::new();
        acceleration_structure.set_vertex_buffer(vertex_data);
        acceleration_structure.set_vertex_stride(12);
        acceleration_structure.set_index_buffer(index_data);
        acceleration_structure.set_index_type(MPSDataType::uInt32);
        acceleration_structure.set_triangle_count(1);
        let built = acceleration_structure.rebuild();
        proof {
            assert(acceleration_structure.spec_consistent());
        }
        match built {
            Ok(()) => {},
            Err(_) => {
                proof {
                    assert(false);
                }
            },
        }

        let mut ray_intersector = RayIntersector::new();
        ray_intersector.set_ray_stride(SIZE_OF_RAY as u64);
        ray_intersector.set_ray_data_type(MPSRayDataType::originMinDistanceDirectionMaxDistance);
        ray_intersector.set_intersection_stride(SIZE_OF_INTERSECTION as u64);
        ray_intersector.set_intersection_data_type(
            MPSIntersectionDataType::distancePrimitiveIndexCoordinates,
        );

        Intersector {
            acceleration_structure,
            ray_intersector,
            ray_buffer: empty_rays(width * height),
            intersection_buffer: empty_hits(width * height),
            output_image: AccumulationImage::new(width, height),
            width,
            height,
        }
    }

    /// Changes the output resolution, reallocating every per-pixel buffer
    /// at the new pixel count.
    pub fn resize(&mut self, width: usize, height: usize)
        requires
            old(self).wf(),
            0 < width <= 65536,
            0 < height <= 65536,
            width * height <= usize::MAX,
        ensures
            final (self).wf(),
            final (self).width == width,
            final (self).height == height,
            final (self).ray_buffer@.len() == width * height,
            final (self).intersection_buffer@.len() == width * height,
            final (self).output_image.count == 0,
    {
        self.width = width;
        self.height = height;
        self.ray_buffer = empty_rays(width * height);
        self.intersection_buffer = empty_hits(width * height);
        self.output_image = AccumulationImage::new(width, height);
    }

    /// The demo frame's plan: generate rays, run the nearest-hit query over
    /// one ray per pixel, then handle the intersections.
    pub fn encode_into(&self) -> (r: (FramePlan, IntersectionQuery))
        requires
            self.wf(),
        ensures
            r.0.passes@ == seq![
                PassKind::RayGeneration,
                PassKind::NearestIntersection,
                PassKind::IntersectionHandling,
            ],
            r.0.ray_count == self.width * self.height,
            r.1.kind == QueryKind::Nearest,
            r.1.ray_count == self.width * self.height,
    {
        let query = self.ray_intersector.encode_intersection_to_command_buffer(
            MPSIntersectionType::nearest,
            self.width * self.height,
        );
        let mut passes: Vec<PassKind> = Vec::new();
        passes.push(PassKind::RayGeneration);
        passes.push(PassKind::NearestIntersection);
        passes.push(PassKind::IntersectionHandling);
        proof {
            assert(passes@ =~= seq![
                PassKind::RayGeneration,
                PassKind::NearestIntersection,
                PassKind::IntersectionHandling,
            ]);
        }
        (FramePlan { frame_index: 0, ray_count: self.width * self.height, passes }, query)
    }

    /// The debug frame's plan: a single fill pass over the image.
    pub fn encode_into_test(&self) -> (plan: FramePlan)
        requires
            self.wf(),
        ensures
            plan.passes@ == seq![PassKind::TestFill],
            plan.ray_count == self.width * self.height,
    {
        let mut passes: Vec<PassKind> = Vec::new();
        passes.push(PassKind::TestFill);
        proof {
            assert(passes@ =~= seq![PassKind::TestFill]);
        }
        FramePlan { frame_index: 0, ray_count: self.width * self.height, passes }
    }

    /// The dispatch grid for the demo kernels: thread groups of 8 by 8,
    /// rounded up so the grid covers every pixel.
    pub fn dispatch_thread_groups(&self) -> (r: (usize, usize))
        requires
            self.wf(),
        ensures
            r.0 == ((self.width + 7) / 8) as int,
            r.1 == ((self.height + 7) / 8) as int,
            r.0 * 8 >= self.width,
            r.1 * 8 >= self.height,
    {
        let gx = (self.width + 7) / 8;
        let gy = (self.height + 7) / 8;
        proof {
            vstd::arithmetic::div_mod::lemma_fundamental_div_mod((self.width + 7) as int, 8);
            vstd::arithmetic::div_mod::lemma_fundamental_div_mod((self.height + 7) as int, 8);
        }
        (gx, gy)
    }

    /// The output image, read by the presentation step.
    pub fn output_texture(&self) -> (im: &AccumulationImage)
        ensures
            im == &self.output_image,
    {
        &self.output_image
    }
}

/// A buffer of `n` inert ray slots.
fn empty_rays(n: usize) -> (rays: Vec<Ray>)
    ensures
        rays@.len() == n,
{
    let mut rays: Vec<Ray> = Vec::new();
    let mut i: usize = 0;
    while i < n
        invariant
            i <= n,
            rays@.len() == i,
        decreases n - i,
    {
        rays.push(
            Ray {
                origin: Vec3 { x: 0, y: 0, z: 0 },
                min_distance: 0,
                direction: Vec3 { x: 0, y: 0, z: 0 },
                max_distance: 0,
                radiance: Color { r: 0, g: 0, b: 0 },
            },
        );
        i += 1;
    }
    rays
}

/// A buffer of `n` miss results.
fn empty_hits(n: usize) -> (hits: Vec<Intersection>)
    ensures
        hits@.len() == n,
{
    let mut hits: Vec<Intersection> = Vec::new();
    let mut i: usize = 0;
    while i < n
        invariant
            i <= n,
            hits@.len() == i,
        decreases n - i,
    {
        hits.push(
            Intersection { distance: 0, primitive_index: MISS_SENTINEL, coord_u: 0, coord_v: 0 },
        );
        i += 1;
    }
    hits
}

} // verus!
