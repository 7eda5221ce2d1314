use raytracer::emitter::EmitterSet;
use raytracer::geometry::{Material, SceneGeometry};
use raytracer::layout::{ray_to_bytes, SIZE_OF_INTERSECTION, SIZE_OF_RAY};
use raytracer::passes::{
    generate_rays, handle_intersections, resolve_shadows, shade_pixel, Intersection, Ray,
    MISS_SENTINEL, NOISE_BUFFER_SIZE,
};
use raytracer::raytracer::{Mode, PassKind, QueryKind, RayTracer};
use raytracer::scalar::Color;
use raytracer::vecmath::Vec3;

const S: i32 = 65536;

fn color(r: u32, g: u32, b: u32) -> Color {
    Color { r, g, b }
}

fn black() -> Color {
    color(0, 0, 0)
}

fn zeros() -> Vec<u32> {
    vec![0u32; NOISE_BUFFER_SIZE]
}

fn miss() -> Intersection {
    Intersection { distance: 0, primitive_index: MISS_SENTINEL, coord_u: 0, coord_v: 0 }
}

/// Unit emissive quad at z = 1 over a diffuse triangle at the origin.
fn quad_scene() -> SceneGeometry {
    let coords = vec![
        0, 0, S, S, 0, S, S, S, S, 0, S, S, // quad corners v0..v3
        0, 0, 0, S, 0, 0, 0, S, 0, // diffuse triangle v4..v6
    ];
    let indices = vec![0u32, 1, 2, 0, 2, 3, 4, 5, 6];
    let triangle_material = vec![0u32, 0, 1];
    let materials = vec![
        Material { diffuse: black(), emissive: color(65536, 65536, 65536) },
        Material { diffuse: color(32768, 32768, 32768), emissive: black() },
    ];
    SceneGeometry::build(coords, indices, triangle_material, materials).unwrap()
}

#[test]
fn ray_count_matches_resolution() {
    let noise = zeros();
    assert_eq!(generate_rays(4, 3, &noise).len(), 12);
    assert_eq!(generate_rays(1, 1, &noise).len(), 1);
    assert_eq!(generate_rays(16, 16, &noise).len(), 256);
}

#[test]
fn primary_rays_point_through_their_pixels() {
    let noise = zeros();
    let rays = generate_rays(2, 2, &noise);
    // With zero jitter, pixel (0,0) maps to the image plane corner (-1,-1)
    // and pixel (1,0) to the centre column, all at unit depth.
    assert_eq!(rays[0].origin, Vec3 { x: 0, y: 0, z: 0 });
    assert_eq!(rays[0].direction, Vec3 { x: -S, y: -S, z: S });
    assert_eq!(rays[1].direction, Vec3 { x: 0, y: -S, z: S });
    assert_eq!(rays[2].direction, Vec3 { x: -S, y: 0, z: S });
    assert_eq!(rays[3].direction, Vec3 { x: 0, y: 0, z: S });
    assert_eq!(rays[0].min_distance, 0);
    assert_eq!(rays[0].max_distance, u32::MAX);
    assert_eq!(rays[0].radiance, black());
    // A jitter of half a pixel shifts the direction by half a pixel's span.
    let mut jittered = zeros();
    jittered[0] = 32768;
    let r = generate_rays(2, 2, &jittered);
    assert_eq!(r[0].direction, Vec3 { x: -S + 32768, y: -S, z: S });
}

#[test]
fn queries_cover_one_result_per_pixel() {
    let g = quad_scene();
    let mut rt = RayTracer::new(g, 2, 2, 10, 1).unwrap();
    rt.reset();
    let q = rt.tick_begin().unwrap();
    assert_eq!(q.kind, QueryKind::Nearest);
    assert_eq!(q.ray_count, 4);
    let q2 = rt.supply_nearest(vec![miss(); 4]);
    assert_eq!(q2.kind, QueryKind::Any);
    assert_eq!(q2.ray_count, 4);
    rt.supply_shadow(vec![miss(); 4]);
    assert_eq!(rt.ray_buffer.len(), 4);
    assert_eq!(rt.intersection_buffer.len(), 4);
}

#[test]
fn miss_keeps_background_and_casts_no_shadow_ray() {
    let g = quad_scene();
    let e = EmitterSet::derive(&g).unwrap();
    let noise = zeros();
    let rays = generate_rays(1, 1, &noise);
    let shaded = handle_intersections(&g, &e, &rays, &vec![miss()], &noise, 1);
    assert_eq!(shaded[0].max_distance, 0);
    assert_eq!(shaded[0].radiance, black());
    // Whatever the occlusion backend answers for the dead slot, the pixel
    // contributes only the background value.
    let hit_anyway = Intersection { distance: 1, primitive_index: 0, coord_u: 0, coord_v: 0 };
    let samples = resolve_shadows(&shaded, &vec![hit_anyway]);
    assert_eq!(samples[0], black());
}

#[test]
fn occluded_shadow_ray_loses_its_contribution() {
    let g = quad_scene();
    let e = EmitterSet::derive(&g).unwrap();
    let noise = zeros();
    let rays = generate_rays(1, 1, &noise);
    let hit = Intersection { distance: 0, primitive_index: 2, coord_u: 0, coord_v: 0 };
    let shaded = handle_intersections(&g, &e, &rays, &vec![hit], &noise, 1);
    assert!(shaded[0].max_distance > 0);
    assert_ne!(shaded[0].radiance, black());
    let occluder = Intersection { distance: 5, primitive_index: 1, coord_u: 0, coord_v: 0 };
    let samples = resolve_shadows(&shaded, &vec![occluder]);
    assert_eq!(samples[0], black());
}

#[test]
fn full_chain_single_emitter_quad_over_diffuse_triangle() {
    // One pixel; the primary ray hits the diffuse triangle at the origin
    // (hit distance zero), the zero noise draws sample the quad's first
    // corner (0, 0, 1), one unit above the hit point.  With
    // pdf = area / total = 0.5, inverse-square term 1.0 and
    // diffuse * emissive = 0.5, the resolved sample is exactly
    // 0.5 * 1.0 / 0.5 = 1.0 per channel.
    let g = quad_scene();
    let e = EmitterSet::derive(&g).unwrap();
    let noise = zeros();

    let rays = generate_rays(1, 1, &noise);
    assert_eq!(rays.len(), 1);

    let nearest = Intersection { distance: 0, primitive_index: 2, coord_u: 0, coord_v: 0 };
    let shaded = handle_intersections(&g, &e, &rays, &vec![nearest], &noise, 1);

    // The shadow ray runs from the hit point toward the sampled emitter
    // corner, biased off the surface and stopped short of the emitter.
    assert_eq!(shaded[0].origin, Vec3 { x: 0, y: 0, z: 0 });
    assert_eq!(shaded[0].direction, Vec3 { x: 0, y: 0, z: S });
    assert_eq!(shaded[0].min_distance, 16);
    assert_eq!(shaded[0].max_distance, 65520);
    assert_eq!(shaded[0].radiance, color(65536, 65536, 65536));

    // Unoccluded: the contribution survives and accumulates as frame 0.
    let samples = resolve_shadows(&shaded, &vec![miss()]);
    assert_eq!(samples[0], color(65536, 65536, 65536));

    let mut im = raytracer::image::AccumulationImage::new(1, 1);
    im.accumulate(&samples);
    assert_eq!(im.mean_pixel(0), color(65536, 65536, 65536));
}

#[test]
fn resize_reallocates_every_per_pixel_buffer() {
    let g = quad_scene();
    let mut rt = RayTracer::new(g, 800, 600, 10, 1).unwrap();
    rt.resize(400, 300);
    assert_eq!(rt.ray_buffer.len(), 400 * 300);
    assert_eq!(rt.intersection_buffer.len(), 400 * 300);
    assert_eq!(rt.output_image.sums.len(), 400 * 300);
    assert_eq!(rt.output_image.count, 0);
    assert_eq!(rt.mode, Mode::Accumulating(0));
    // Device buffer sizes at the new resolution, in bytes.
    let ray_bytes = rt.ray_buffer.len() * SIZE_OF_RAY;
    assert_eq!(ray_bytes, 400 * 300 * 44);
    let hit_bytes = rt.intersection_buffer.len() * SIZE_OF_INTERSECTION;
    assert_eq!(hit_bytes, 400 * 300 * 16);
    assert_eq!(ray_to_bytes(&rt.ray_buffer[0]).len(), SIZE_OF_RAY);
}

#[test]
fn reset_makes_the_next_frame_overwrite() {
    let g = quad_scene();
    let mut rt = RayTracer::new(g, 1, 1, 100, 1).unwrap();
    rt.reset();
    // Accumulate three all-miss (black) frames.
    for _ in 0..3 {
        rt.tick_begin().unwrap();
        rt.supply_nearest(vec![miss()]);
        rt.supply_shadow(vec![miss()]);
    }
    assert_eq!(rt.mode, Mode::Accumulating(3));
    rt.reset();
    assert_eq!(rt.mode, Mode::Accumulating(0));
    assert_eq!(rt.output_image.count, 0);
    // The next frame is treated as frame zero: a lit frame fully overwrites.
    rt.tick_begin().unwrap();
    let hit = Intersection { distance: 0, primitive_index: 2, coord_u: 0, coord_v: 0 };
    rt.supply_nearest(vec![hit]);
    rt.supply_shadow(vec![miss()]);
    assert_eq!(rt.output_image.count, 1);
    assert_eq!(rt.mode, Mode::Accumulating(1));
    let mean = rt.output_image.mean_pixel(0);
    // The shaded sample depends on the seeded noise, but an average with the
    // three black frames would divide it by four; overwriting keeps it whole.
    assert_eq!(rt.output_image.sums[0].r, mean.r as u64);
    assert_eq!(rt.output_image.sums[0].g, mean.g as u64);
    assert_eq!(rt.output_image.sums[0].b, mean.b as u64);
}

#[test]
fn controller_converges_at_the_sample_budget() {
    let g = quad_scene();
    let mut rt = RayTracer::new(g, 1, 1, 2, 1).unwrap();
    // Idle: ticks are no-ops.
    assert!(rt.tick_begin().is_none());
    assert!(!rt.is_converged());
    rt.reset();
    for n in 0..2 {
        assert_eq!(rt.mode, Mode::Accumulating(n));
        rt.tick_begin().unwrap();
        rt.supply_nearest(vec![miss()]);
        rt.supply_shadow(vec![miss()]);
    }
    assert_eq!(rt.mode, Mode::Accumulating(2));
    // At the budget the controller converges and issues no work.
    assert!(rt.tick_begin().is_none());
    assert!(rt.is_converged());
    assert!(rt.tick_begin().is_none());
    assert_eq!(rt.output_image.count, 2);
    // A reset restarts accumulation.
    rt.reset();
    assert_eq!(rt.mode, Mode::Accumulating(0));
    assert!(rt.tick_begin().is_some());
}

#[test]
fn frame_state_is_rewritten_before_each_frame() {
    let g = quad_scene();
    let mut rt = RayTracer::new(g, 1, 1, 10, 1).unwrap();
    rt.reset();
    rt.tick_begin().unwrap();
    assert_eq!(rt.frame_state.ray_number, 0);
    assert_eq!(rt.frame_state.emitter_triangles_count, 2);
    assert_eq!(rt.frame_state.emitter_total_area, 65536);
    rt.supply_nearest(vec![miss()]);
    rt.supply_shadow(vec![miss()]);
    rt.tick_begin().unwrap();
    assert_eq!(rt.frame_state.ray_number, 1);
}

#[test]
fn frame_plan_lists_the_passes_in_order() {
    let g = quad_scene();
    let rt = RayTracer::new(g, 3, 2, 10, 1).unwrap();
    let plan = rt.encode_into(5);
    assert_eq!(plan.frame_index, 5);
    assert_eq!(plan.ray_count, 6);
    assert_eq!(
        plan.passes,
        vec![
            PassKind::RayGeneration,
            PassKind::NearestIntersection,
            PassKind::IntersectionHandling,
            PassKind::AnyIntersection,
            PassKind::ShadowHandling,
            PassKind::Accumulation,
        ]
    );
    let test_plan = rt.encode_into_test();
    assert_eq!(test_plan.passes, vec![PassKind::TestFill]);
}

#[test]
fn dispatch_grid_covers_the_resolution() {
    let g = quad_scene();
    let rt = RayTracer::new(g, 800, 600, 10, 1).unwrap();
    assert_eq!(rt.dispatch_thread_groups(), (100, 75));
    let g2 = quad_scene();
    let rt2 = RayTracer::new(g2, 10, 17, 10, 1).unwrap();
    let (gx, gy) = rt2.dispatch_thread_groups();
    assert_eq!((gx, gy), (2, 3));
    assert!(gx * 8 >= 10 && gy * 8 >= 17);
}

#[test]
fn selection_draw_spans_totals_above_one() {
    // Two unit-area emitters (total 2.0 in Q16.16, well past one unit), one
    // at z = 1 and one at z = 2.  The full-width selection draw scaled into
    // [0, total) must reach the second emitter's cumulative interval; the
    // chosen emitter shows in the shadow ray's direction.
    let coords = vec![
        0, 0, S, 2 * S, 0, S, 0, S, S, // emitter at z = 1
        0, 0, 2 * S, 2 * S, 0, 2 * S, 0, S, 2 * S, // emitter at z = 2
    ];
    let indices = vec![0u32, 1, 2, 3, 4, 5];
    let materials = vec![Material { diffuse: black(), emissive: color(65536, 65536, 65536) }];
    let g = SceneGeometry::build(coords, indices, vec![0u32, 0], materials).unwrap();
    let e = EmitterSet::derive(&g).unwrap();
    assert_eq!(e.total_area, 131072);

    let hit = Intersection { distance: 0, primitive_index: 0, coord_u: 0, coord_v: 0 };

    let mut low = zeros();
    low[2] = 0;
    let rays = generate_rays(1, 1, &low);
    let shaded = handle_intersections(&g, &e, &rays, &vec![hit], &low, 1);
    assert_eq!(shaded[0].direction, Vec3 { x: 0, y: 0, z: S });

    let mut high = zeros();
    high[2] = u32::MAX;
    let rays = generate_rays(1, 1, &high);
    let shaded = handle_intersections(&g, &e, &rays, &vec![hit], &high, 1);
    assert_eq!(shaded[0].direction, Vec3 { x: 0, y: 0, z: 2 * S });
}

#[test]
fn shading_with_no_emitters_contributes_nothing() {
    let coords = vec![0, 0, 0, S, 0, 0, 0, S, 0];
    let g = SceneGeometry::build(
        coords,
        vec![0u32, 1, 2],
        vec![0u32],
        vec![Material { diffuse: color(32768, 32768, 32768), emissive: black() }],
    )
    .unwrap();
    let e = EmitterSet::derive(&g).unwrap();
    let noise = zeros();
    let rays = generate_rays(1, 1, &noise);
    let hit = Intersection { distance: 0, primitive_index: 0, coord_u: 0, coord_v: 0 };
    let out = shade_pixel(&g, &e, &rays[0], &hit, 0, 0, 0);
    assert_eq!(out.max_distance, 0);
    assert_eq!(out.radiance, black());
}
