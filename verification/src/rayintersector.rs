//! The intersection backend's configuration surface.
//!
//! The spatial-index backend speaks in numeric codes for its ray,
//! intersection and data formats.  This module keeps those codes as closed
//! enumerations with verified numeric mappings, and models the two
//! configurable backend objects — the ray intersector and the triangle
//! acceleration structure — as plain records whose setters and whose
//! rebuild-time validation carry exact contracts.  The actual device
//! objects live outside the library; a driver mirrors this configuration
//! into them.

use vstd::prelude::*;
use crate::geometry::SceneError;
use crate::raytracer::{IntersectionQuery, QueryKind};

verus! {

/// What each intersection-result slot carries.
#[allow(non_camel_case_types)]
#[derive(Clone, Copy, Debug, PartialEq, Eq, Structural)]
pub enum MPSIntersectionDataType {
    distance,
    distancePrimitiveIndex,
    distancePrimitiveIndexCoordinates,
    distancePrimitiveIndexInstanceIndex,
    distancePrimitiveIndexInstanceIndexCoordinates,
}

impl MPSIntersectionDataType {
    /// The backend's numeric code for this format.
    pub open spec fn spec_code(self) -> u64 {
        match self {
            MPSIntersectionDataType::distance => 0u64,
            MPSIntersectionDataType::distancePrimitiveIndex => 1u64,
            MPSIntersectionDataType::distancePrimitiveIndexCoordinates => 2u64,
            MPSIntersectionDataType::distancePrimitiveIndexInstanceIndex => 3u64,
            MPSIntersectionDataType::distancePrimitiveIndexInstanceIndexCoordinates => 4u64,
        }
    }

    /// The backend's numeric code for this format.
    pub fn code(self) -> (c: u64)
        ensures
            c == self.spec_code(),
    {
        match self {
            MPSIntersectionDataType::distance => 0,
            MPSIntersectionDataType::distancePrimitiveIndex => 1,
            MPSIntersectionDataType::distancePrimitiveIndexCoordinates => 2,
            MPSIntersectionDataType::distancePrimitiveIndexInstanceIndex => 3,
            MPSIntersectionDataType::distancePrimitiveIndexInstanceIndexCoordinates => 4,
        }
    }
}

/// Which kind of hit an intersection query reports.
#[allow(non_camel_case_types)]
#[derive(Clone, Copy, Debug, PartialEq, Eq, Structural)]
pub enum MPSIntersectionType {
    nearest,
    any,
}

impl MPSIntersectionType {
    /// The backend's numeric code for this query kind.
    pub open spec fn spec_code(self) -> u64 {
        match self {
            MPSIntersectionType::nearest => 0u64,
            MPSIntersectionType::any => 1u64,
        }
    }

    /// The backend's numeric code for this query kind.
    pub fn code(self) -> (c: u64)
        ensures
            c == self.spec_code(),
    {
        match self {
            MPSIntersectionType::nearest => 0,
            MPSIntersectionType::any => 1,
        }
    }
}

/// How each ray slot is laid out for the backend.
#[allow(non_camel_case_types)]
#[derive(Clone, Copy, Debug, PartialEq, Eq, Structural)]
pub enum MPSRayDataType {
    originDirection,
    originMinDistanceDirectionMaxDistance,
    originMaskDirectionMaxDistance,
}

impl MPSRayDataType {
    /// The backend's numeric code for this layout.
    pub open spec fn spec_code(self) -> u64 {
        match self {
            MPSRayDataType::originDirection => 0u64,
            MPSRayDataType::originMinDistanceDirectionMaxDistance => 1u64,
            MPSRayDataType::originMaskDirectionMaxDistance => 2u64,
        }
    }

    /// The backend's numeric code for this layout.
    pub fn code(self) -> (c: u64)
        ensures
            c == self.spec_code(),
    {
        match self {
            MPSRayDataType::originDirection => 0,
            MPSRayDataType::originMinDistanceDirectionMaxDistance => 1,
            MPSRayDataType::originMaskDirectionMaxDistance => 2,
        }
    }
}

/// The backend's element formats (index types and friends).
#[allow(non_camel_case_types)]
#[derive(Clone, Copy, Debug, PartialEq, Eq, Structural)]
pub enum MPSDataType {
    invalid,
    float16,
    int16,
    int8,
    normalizedBit,
    signedBit,
    uInt8,
    uInt16,
    uInt32,
    unorm1,
    unorm8,
}

impl MPSDataType {
    /// The backend's numeric code for this format.
    pub open spec fn spec_code(self) -> u64 {
        match self {
            MPSDataType::invalid => 0u64,
            MPSDataType::float16 => 268435472u64,
            MPSDataType::int16 => 536870928u64,
            MPSDataType::int8 => 536870920u64,
            MPSDataType::normalizedBit => 1073741824u64,
            MPSDataType::signedBit => 536870912u64,
            MPSDataType::uInt8 => 8u64,
            MPSDataType::uInt16 => 16u64,
            MPSDataType::uInt32 => 32u64,
            MPSDataType::unorm1 => 1073741825u64,
            MPSDataType::unorm8 => 1073741832u64,
        }
    }

    /// The backend's numeric code for this format.
    pub fn code(self) -> (c: u64)
        ensures
            c == self.spec_code(),
    {
        match self {
            MPSDataType::invalid => 0,
            MPSDataType::float16 => 268435472,
            MPSDataType::int16 => 536870928,
            MPSDataType::int8 => 536870920,
            MPSDataType::normalizedBit => 1073741824,
            MPSDataType::signedBit => 536870912,
            MPSDataType::uInt8 => 8,
            MPSDataType::uInt16 => 16,
            MPSDataType::uInt32 => 32,
            MPSDataType::unorm1 => 1073741825,
            MPSDataType::unorm8 => 1073741832,
        }
    }
}

/// The ray intersector's configuration: the strides and formats the backend
/// is told before encoding a query.
pub struct RayIntersector {
    pub ray_stride: u64,
    pub ray_data_type: MPSRayDataType,
    pub intersection_stride: u64,
    pub intersection_data_type: MPSIntersectionDataType,
}

impl RayIntersector {
    /// A fresh intersector with the backend's default configuration.
    pub fn new() -> (r: RayIntersector)
        ensures
            r.ray_stride == 0,
            r.ray_data_type == MPSRayDataType::originDirection,
            r.intersection_stride == 0,
            r.intersection_data_type == MPSIntersectionDataType::distance,
    {
        RayIntersector {
            ray_stride: 0,
            ray_data_type: MPSRayDataType::originDirection,
            intersection_stride: 0,
            intersection_data_type: MPSIntersectionDataType::distance,
        }
    }

    /// Records the byte stride of one ray slot.
    pub fn set_ray_stride(&mut self, stride: u64)
        ensures
            *final (self) == (RayIntersector { ray_stride: stride, ..*old(self) }),
    {
        self.ray_stride = stride;
    }

    /// Records the ray layout.
    pub fn set_ray_data_type(&mut self, data_type: MPSRayDataType)
        ensures
            *final (self) == (RayIntersector { ray_data_type: data_type, ..*old(self) }),
    {
        self.ray_data_type = data_type;
    }

    /// Records the byte stride of one intersection result.
    pub fn set_intersection_stride(&mut self, stride: u64)
        ensures
            *final (self) == (RayIntersector { intersection_stride: stride, ..*old(self) }),
    {
        self.intersection_stride = stride;
    }

    /// Records the intersection-result format.
    pub fn set_intersection_data_type(&mut self, data_type: MPSIntersectionDataType)
        ensures
            *final (self) == (
            RayIntersector { intersection_data_type: data_type, ..*old(self) }),
    {
        self.intersection_data_type = data_type;
    }

    /// The batched query this configuration submits: the given kind over
    /// exactly `ray_count` rays and result slots.
    pub fn encode_intersection_to_command_buffer(
        &self,
        intersection_type: MPSIntersectionType,
        ray_count: usize,
    ) -> (q: IntersectionQuery)
        ensures
            q.ray_count == ray_count,
            q.kind == (match intersection_type {
                MPSIntersectionType::nearest => QueryKind::Nearest,
                MPSIntersectionType::any => QueryKind::Any,
            }),
    {
        let kind = match intersection_type {
            MPSIntersectionType::nearest => QueryKind::Nearest,
            MPSIntersectionType::any => QueryKind::Any,
        };
        IntersectionQuery { kind, ray_count }
    }
}

/// The acceleration structure's configuration: the buffers and counts the
/// spatial index is built over.  `rebuild` validates them exactly as the
/// backend's build step demands.
pub struct TriangleAccelerationStructure {
    pub vertex_data: Vec<i32>,
    pub index_data: Vec<u32>,
    pub vertex_stride: i64,
    pub index_type: MPSDataType,
    pub triangle_count: i64,
    pub built: bool,
}

impl TriangleAccelerationStructure {
    /// A fresh, empty, unbuilt structure.
    pub fn new() -> (r: TriangleAccelerationStructure)
        ensures
            r.vertex_data@.len() == 0,
            r.index_data@.len() == 0,
            !r.built,
    {
        TriangleAccelerationStructure {
            vertex_data: Vec::new(),
            index_data: Vec::new(),
            vertex_stride: 0,
            index_type: MPSDataType::invalid,
            triangle_count: 0,
            built: false,
        }
    }

    /// Replaces the xyz-packed vertex buffer; the structure must be rebuilt.
    pub fn set_vertex_buffer(&mut self, data: Vec<i32>)
        ensures
            final (self).vertex_data@ == data@,
            final (self).index_data@ == old(self).index_data@,
            final (self).triangle_count == old(self).triangle_count,
            final (self).index_type == old(self).index_type,
            final (self).vertex_stride == old(self).vertex_stride,
            !final (self).built,
    {
        self.vertex_data = data;
        self.built = false;
    }

    /// Replaces the index buffer; the structure must be rebuilt.
    pub fn set_index_buffer(&mut self, data: Vec<u32>)
        ensures
            final (self).index_data@ == data@,
            final (self).vertex_data@ == old(self).vertex_data@,
            final (self).triangle_count == old(self).triangle_count,
            final (self).index_type == old(self).index_type,
            final (self).vertex_stride == old(self).vertex_stride,
            !final (self).built,
    {
        self.index_data = data;
        self.built = false;
    }

    /// Records the index element format; the structure must be rebuilt.
    pub fn set_index_type(&mut self, index_type: MPSDataType)
        ensures
            *final (self) == (
            TriangleAccelerationStructure { index_type, built: false, ..*old(self) }),
    {
        self.index_type = index_type;
        self.built = false;
    }

    /// Records the byte stride of one vertex; the structure must be rebuilt.
    pub fn set_vertex_stride(&mut self, stride: i64)
        ensures
            *final (self) == (
            TriangleAccelerationStructure { vertex_stride: stride, built: false, ..*old(self) }),
    {
        self.vertex_stride = stride;
        self.built = false;
    }

    /// Records the number of triangles the index buffer describes; the
    /// structure must be rebuilt.
    pub fn set_triangle_count(&mut self, count: i64)
        ensures
            *final (self) == (
            TriangleAccelerationStructure { triangle_count: count, built: false, ..*old(self) }),
    {
        self.triangle_count = count;
        self.built = false;
    }

    /// Whether the configured buffers describe a consistent triangle soup:
    /// the index buffer holds exactly three indices per declared triangle,
    /// there is at least one triangle, and every index names an existing
    /// vertex.
    pub open spec fn spec_consistent(self) -> bool {
        &&& self.triangle_count > 0
        &&& self.index_data@.len() == 3 * self.triangle_count
        &&& self.vertex_data@.len() % 3 == 0
        &&& forall|i: int|
            0 <= i < self.index_data@.len() ==> (#[trigger] self.index_data@[i]) < self.vertex_data@.len() / 3
    }

    /// Rebuilds the spatial index over the configured buffers.  Succeeds
    /// exactly when the buffers are consistent; an index referencing an
    /// out-of-range vertex or an index count that does not match the
    /// triangle count fails fatally, and the structure stays unbuilt.
    pub fn rebuild(&mut self) -> (r: Result<(), SceneError>)
        ensures
            final (self).vertex_data@ == old(self).vertex_data@,
            final (self).index_data@ == old(self).index_data@,
            final (self).triangle_count == old(self).triangle_count,
            final (self).index_type == old(self).index_type,
            final (self).vertex_stride == old(self).vertex_stride,
            final (self).built == (r is Ok),
            r is Ok <==> old(self).spec_consistent(),
            r matches Err(e) ==> (e == SceneError::IndexCountNotTriple && !(old(
                self,
            ).triangle_count > 0 && old(self).index_data@.len() == 3 * old(self).triangle_count
                && old(self).vertex_data@.len() % 3 == 0)) || (e == SceneError::IndexOutOfRange
                && exists|i: int|
                0 <= i < old(self).index_data@.len() && (#[trigger] old(self).index_data@[i])
                    >= old(self).vertex_data@.len() / 3),
    {
        self.built = false;
        if self.triangle_count <= 0 {
            return Err(SceneError::IndexCountNotTriple);
        }
        if self.index_data.len() as u128 != 3 * (self.triangle_count as u128) {
            return Err(SceneError::IndexCountNotTriple);
        }
        if self.vertex_data.len() % 3 != 0 {
            return Err(SceneError::IndexCountNotTriple);
        }
        let vertex_count = self.vertex_data.len() / 3;
        let n = self.index_data.len();
        let mut i: usize = 0;
        while i < n
            invariant
                i <= n,
                n == self.index_data@.len(),
                vertex_count == self.vertex_data@.len() / 3,
                forall|j: int| 0 <= j < i ==> (#[trigger] self.index_data@[j]) < vertex_count,
                self.built == false,
                self.vertex_data@ == old(self).vertex_data@,
                self.index_data@ == old(self).index_data@,
                self.triangle_count == old(self).triangle_count,
                self.vertex_stride == old(self).vertex_stride,
                self.index_type == old(self).index_type,
            decreases n - i,
        {
            if self.index_data[i] as usize >= vertex_count {
                return Err(SceneError::IndexOutOfRange);
            }
            i += 1;
        }
        self.built = true;
        Ok(())
    }
}

} // verus!
