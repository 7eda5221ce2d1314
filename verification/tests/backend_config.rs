use raytracer::geometry::SceneError;
use raytracer::intersector::Intersector;
use raytracer::rayintersector::{
    MPSDataType, MPSIntersectionDataType, MPSIntersectionType, MPSRayDataType, RayIntersector,
    TriangleAccelerationStructure,
};
use raytracer::raytracer::{PassKind, QueryKind};

#[test]
fn intersection_data_type_codes() {
    assert_eq!(MPSIntersectionDataType::distance.code(), 0);
    assert_eq!(MPSIntersectionDataType::distancePrimitiveIndex.code(), 1);
    assert_eq!(MPSIntersectionDataType::distancePrimitiveIndexCoordinates.code(), 2);
    assert_eq!(MPSIntersectionDataType::distancePrimitiveIndexInstanceIndex.code(), 3);
    assert_eq!(
        MPSIntersectionDataType::distancePrimitiveIndexInstanceIndexCoordinates.code(),
        4
    );
}

#[test]
fn intersection_type_codes() {
    assert_eq!(MPSIntersectionType::nearest.code(), 0);
    assert_eq!(MPSIntersectionType::any.code(), 1);
}

#[test]
fn ray_data_type_codes() {
    assert_eq!(MPSRayDataType::originDirection.code(), 0);
    assert_eq!(MPSRayDataType::originMinDistanceDirectionMaxDistance.code(), 1);
    assert_eq!(MPSRayDataType::originMaskDirectionMaxDistance.code(), 2);
}

#[test]
fn data_type_codes() {
    assert_eq!(MPSDataType::invalid.code(), 0);
    assert_eq!(MPSDataType::uInt8.code(), 8);
    assert_eq!(MPSDataType::uInt16.code(), 16);
    assert_eq!(MPSDataType::uInt32.code(), 32);
    assert_eq!(MPSDataType::float16.code(), 268435472);
    assert_eq!(MPSDataType::int8.code(), 536870920);
    assert_eq!(MPSDataType::int16.code(), 536870928);
    assert_eq!(MPSDataType::signedBit.code(), 536870912);
    assert_eq!(MPSDataType::normalizedBit.code(), 1073741824);
    assert_eq!(MPSDataType::unorm1.code(), 1073741825);
    assert_eq!(MPSDataType::unorm8.code(), 1073741832);
}

#[test]
fn intersector_configuration_is_recorded() {
    let mut ri = RayIntersector::new();
    ri.set_ray_stride(44);
    ri.set_ray_data_type(MPSRayDataType::originMinDistanceDirectionMaxDistance);
    ri.set_intersection_stride(16);
    ri.set_intersection_data_type(MPSIntersectionDataType::distancePrimitiveIndexCoordinates);
    assert_eq!(ri.ray_stride, 44);
    assert_eq!(ri.intersection_stride, 16);
    let q = ri.encode_intersection_to_command_buffer(MPSIntersectionType::nearest, 480000);
    assert_eq!(q.kind, QueryKind::Nearest);
    assert_eq!(q.ray_count, 480000);
    let q2 = ri.encode_intersection_to_command_buffer(MPSIntersectionType::any, 480000);
    assert_eq!(q2.kind, QueryKind::Any);
}

#[test]
fn acceleration_structure_build_validates_counts() {
    let mut acc = TriangleAccelerationStructure::new();
    acc.set_vertex_buffer(vec![0, 0, 0, 65536, 0, 0, 0, 65536, 0]);
    acc.set_index_buffer(vec![0, 1, 2]);
    acc.set_index_type(MPSDataType::uInt32);
    acc.set_triangle_count(1);
    assert!(acc.rebuild().is_ok());
    assert!(acc.built);

    // Any configuration change invalidates the built structure.
    acc.set_triangle_count(1);
    assert!(!acc.built);
    assert!(acc.rebuild().is_ok());
    acc.set_vertex_stride(12);
    assert!(!acc.built);
    assert!(acc.rebuild().is_ok());
    acc.set_index_type(MPSDataType::uInt32);
    assert!(!acc.built);
    assert!(acc.rebuild().is_ok());

    // Index referencing a vertex past the end of the vertex buffer.
    acc.set_index_buffer(vec![0, 1, 3]);
    assert_eq!(acc.rebuild().unwrap_err(), SceneError::IndexOutOfRange);
    assert!(!acc.built);

    // Index count not matching the declared triangle count.
    acc.set_index_buffer(vec![0, 1]);
    assert_eq!(acc.rebuild().unwrap_err(), SceneError::IndexCountNotTriple);
    assert!(!acc.built);

    // No triangles at all.
    acc.set_index_buffer(vec![]);
    acc.set_triangle_count(0);
    assert_eq!(acc.rebuild().unwrap_err(), SceneError::IndexCountNotTriple);
}

#[test]
fn demo_intersector_builds_and_plans_its_passes() {
    let mut ix = Intersector::new(64, 48);
    assert!(ix.acceleration_structure.built);
    // The hard-wired triangle, in Q16.16: (0.25, 0.25, 0), (0.75, 0.25, 0),
    // (0.5, 0.75, 0).
    assert_eq!(
        ix.acceleration_structure.vertex_data,
        vec![16384, 16384, 0, 49152, 16384, 0, 32768, 49152, 0]
    );
    assert_eq!(ix.acceleration_structure.index_data, vec![0, 1, 2]);
    assert_eq!(ix.acceleration_structure.triangle_count, 1);
    assert_eq!(ix.acceleration_structure.index_type, MPSDataType::uInt32);
    assert_eq!(ix.acceleration_structure.vertex_stride, 12);
    assert_eq!(ix.ray_intersector.ray_stride, 44);
    assert_eq!(
        ix.ray_intersector.ray_data_type,
        MPSRayDataType::originMinDistanceDirectionMaxDistance
    );
    assert_eq!(ix.ray_intersector.intersection_stride, 16);
    assert_eq!(
        ix.ray_intersector.intersection_data_type,
        MPSIntersectionDataType::distancePrimitiveIndexCoordinates
    );
    assert_eq!(ix.ray_buffer.len(), 64 * 48);
    assert_eq!(ix.intersection_buffer.len(), 64 * 48);
    let (plan, query) = ix.encode_into();
    assert_eq!(
        plan.passes,
        vec![
            PassKind::RayGeneration,
            PassKind::NearestIntersection,
            PassKind::IntersectionHandling,
        ]
    );
    assert_eq!(query.kind, QueryKind::Nearest);
    assert_eq!(query.ray_count, 64 * 48);
    let test_plan = ix.encode_into_test();
    assert_eq!(test_plan.passes, vec![PassKind::TestFill]);
    assert_eq!(ix.dispatch_thread_groups(), (8, 6));
    ix.resize(32, 32);
    assert_eq!(ix.ray_buffer.len(), 1024);
    assert_eq!(ix.intersection_buffer.len(), 1024);
    assert_eq!(ix.dispatch_thread_groups(), (4, 4));
}
