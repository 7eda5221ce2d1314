use raytracer::emitter::EmitterSet;
use raytracer::vecmath::COORD_LIMIT;
use raytracer::geometry::{Material, SceneError, SceneGeometry};
use raytracer::scalar::Color;

const S: i32 = 65536;

fn color(r: u32, g: u32, b: u32) -> Color {
    Color { r, g, b }
}

fn black() -> Color {
    color(0, 0, 0)
}

/// A unit emissive quad at z = 1 (two triangles of area 0.5 each) above a
/// diffuse triangle near the origin.
fn quad_scene() -> SceneGeometry {
    let coords = vec![
        0, 0, S, // v0
        S, 0, S, // v1
        S, S, S, // v2
        0, S, S, // v3
        0, 0, 0, // v4
        S, 0, 0, // v5
        0, S, 0, // v6
    ];
    let indices = vec![0u32, 1, 2, 0, 2, 3, 4, 5, 6];
    let triangle_material = vec![0u32, 0, 1];
    let materials = vec![
        Material { diffuse: black(), emissive: color(65536, 65536, 65536) },
        Material { diffuse: color(32768, 32768, 32768), emissive: black() },
    ];
    SceneGeometry::build(coords, indices, triangle_material, materials).unwrap()
}

#[test]
fn derive_finds_the_emissive_triangles_in_order() {
    let g = quad_scene();
    let e = EmitterSet::derive(&g).unwrap();
    assert_eq!(e.emitters.len(), 2);
    assert_eq!(e.emitters[0].primitive_index, 0);
    assert_eq!(e.emitters[1].primitive_index, 1);
    assert_eq!(e.emitters[0].emissive, color(65536, 65536, 65536));
}

#[test]
fn total_area_is_the_sum_of_emitter_areas() {
    let g = quad_scene();
    let e = EmitterSet::derive(&g).unwrap();
    // Each half of the unit square has area 0.5 in Q16.16, exactly.
    assert_eq!(e.emitters[0].area, 32768);
    assert_eq!(e.emitters[1].area, 32768);
    let sum: u64 = e.emitters.iter().map(|t| t.area as u64).sum();
    assert_eq!(e.total_area as u64, sum);
    assert_eq!(e.total_area, 65536);
}

#[test]
fn no_emissive_material_means_no_emitters() {
    let coords = vec![0, 0, 0, S, 0, 0, 0, S, 0];
    let indices = vec![0u32, 1, 2];
    let g = SceneGeometry::build(
        coords,
        indices,
        vec![0u32],
        vec![Material { diffuse: color(1, 2, 3), emissive: black() }],
    )
    .unwrap();
    let e = EmitterSet::derive(&g).unwrap();
    assert_eq!(e.emitters.len(), 0);
    assert_eq!(e.total_area, 0);
}

#[test]
fn sample_selects_by_cumulative_area() {
    let g = quad_scene();
    let e = EmitterSet::derive(&g).unwrap();
    // Intervals: [0, 32768) selects 0, [32768, 65536) selects 1.
    assert_eq!(e.sample(0), 0);
    assert_eq!(e.sample(32767), 0);
    assert_eq!(e.sample(32768), 1);
    assert_eq!(e.sample(65535), 1);
}

#[test]
fn selection_probability_is_area_over_total() {
    let g = quad_scene();
    let e = EmitterSet::derive(&g).unwrap();
    let mut chosen0: u32 = 0;
    let mut chosen1: u32 = 0;
    for u in 0..e.total_area {
        match e.sample(u) {
            0 => chosen0 += 1,
            1 => chosen1 += 1,
            _ => panic!("no such emitter"),
        }
    }
    // Exactly area-many draws select each emitter.
    assert_eq!(chosen0, e.emitters[0].area);
    assert_eq!(chosen1, e.emitters[1].area);
}

#[test]
fn oversized_emitter_area_is_rejected() {
    // One emissive triangle spanning the whole coordinate range: its area
    // (2^39 in Q16.16) cannot be summed in 32 bits.
    let cl = COORD_LIMIT;
    let coords = vec![-cl, -cl, 0, cl, -cl, 0, -cl, cl, 0];
    let g = SceneGeometry::build(
        coords,
        vec![0u32, 1, 2],
        vec![0u32],
        vec![Material { diffuse: black(), emissive: color(1, 1, 1) }],
    )
    .unwrap();
    match EmitterSet::derive(&g) {
        Err(e) => assert_eq!(e, SceneError::EmitterAreaOverflow),
        Ok(_) => panic!("expected the emitter area to overflow"),
    }
}

#[test]
fn zero_area_emitter_is_never_selected() {
    // Middle emissive triangle is degenerate (all corners equal).
    let coords = vec![
        0, 0, S, S, 0, S, S, S, S, // emitter a
        7, 7, 7, // degenerate corner, used three times
        0, 0, 0, S, 0, 0, 0, S, 0, // emitter b
    ];
    let indices = vec![0u32, 1, 2, 3, 3, 3, 4, 5, 6];
    let triangle_material = vec![0u32, 0, 0];
    let materials = vec![Material { diffuse: black(), emissive: color(1, 1, 1) }];
    let g = SceneGeometry::build(coords, indices, triangle_material, materials).unwrap();
    let e = EmitterSet::derive(&g).unwrap();
    assert_eq!(e.emitters.len(), 3);
    assert_eq!(e.emitters[1].area, 0);
    let a0 = e.emitters[0].area;
    // The draw at the zero-width interval's position falls to the next emitter.
    assert_eq!(e.sample(a0), 2);
    for u in (0..e.total_area).step_by(97) {
        assert_ne!(e.sample(u), 1);
    }
}
