use raytracer::emitter::EmitterTriangle;
use raytracer::layout::{
    coord_from_bits, coord_to_bits, emitter_from_bytes, emitter_to_bytes, frame_state_from_bytes,
    frame_state_to_bytes, intersection_from_bytes, intersection_to_bytes, ray_from_bytes,
    ray_to_bytes, SIZE_OF_EMITTER_TRIANGLE, SIZE_OF_FRAME_STATE, SIZE_OF_INTERSECTION,
    SIZE_OF_RAY,
};
use raytracer::passes::{Intersection, Ray, MISS_SENTINEL};
use raytracer::raytracer::FrameState;
use raytracer::scalar::Color;
use raytracer::vecmath::Vec3;

#[test]
fn coordinate_bits_round_trip() {
    for x in [0i32, 1, -1, 65536, -65536, 0x0800_0000, -0x0800_0000] {
        assert_eq!(coord_from_bits(coord_to_bits(x)), x);
    }
    assert_eq!(coord_to_bits(0), 0);
    assert_eq!(coord_to_bits(-1), 0xffff_ffff);
}

#[test]
fn ray_layout_round_trip() {
    let r = Ray {
        origin: Vec3 { x: -65536, y: 12345, z: 0 },
        min_distance: 16,
        direction: Vec3 { x: 1, y: -2, z: 65536 },
        max_distance: 99999,
        radiance: Color { r: 7, g: 8, b: 9 },
    };
    let bytes = ray_to_bytes(&r);
    assert_eq!(bytes.len(), SIZE_OF_RAY);
    assert_eq!(bytes.len(), 44);
    let back = ray_from_bytes(&bytes);
    assert_eq!(back, r);
}

#[test]
fn ray_layout_field_offsets() {
    let r = Ray {
        origin: Vec3 { x: 1, y: 2, z: 3 },
        min_distance: 4,
        direction: Vec3 { x: 5, y: 6, z: 7 },
        max_distance: 8,
        radiance: Color { r: 9, g: 10, b: 11 },
    };
    let bytes = ray_to_bytes(&r);
    // Eleven little-endian words at fixed offsets.
    for w in 0..11 {
        assert_eq!(bytes[4 * w], (w + 1) as u8);
        assert_eq!(bytes[4 * w + 1], 0);
        assert_eq!(bytes[4 * w + 2], 0);
        assert_eq!(bytes[4 * w + 3], 0);
    }
}

#[test]
fn intersection_layout_round_trip() {
    let h = Intersection {
        distance: 123456,
        primitive_index: MISS_SENTINEL,
        coord_u: 32768,
        coord_v: 1,
    };
    let bytes = intersection_to_bytes(&h);
    assert_eq!(bytes.len(), SIZE_OF_INTERSECTION);
    assert_eq!(bytes.len(), 16);
    assert_eq!(intersection_from_bytes(&bytes), h);
}

#[test]
fn frame_state_layout_round_trip() {
    let s = FrameState {
        ray_number: 41,
        emitter_triangles_count: 2,
        emitter_total_area: 65536,
    };
    let bytes = frame_state_to_bytes(&s);
    assert_eq!(bytes.len(), SIZE_OF_FRAME_STATE);
    assert_eq!(bytes.len(), 12);
    assert_eq!(frame_state_from_bytes(&bytes), s);
    // ray_number sits in the first word, little-endian.
    assert_eq!(bytes[0], 41);
}

#[test]
fn emitter_layout_round_trip() {
    let e = EmitterTriangle {
        primitive_index: 3,
        emissive: Color { r: 65536, g: 65536, b: 65536 },
        area: 32768,
    };
    let bytes = emitter_to_bytes(&e);
    assert_eq!(bytes.len(), SIZE_OF_EMITTER_TRIANGLE);
    assert_eq!(bytes.len(), 20);
    assert_eq!(emitter_from_bytes(&bytes), e);
}
