use raytracer::image::AccumulationImage;
use raytracer::scalar::Color;

fn color(r: u32, g: u32, b: u32) -> Color {
    Color { r, g, b }
}

fn frame(c: Color, n: usize) -> Vec<Color> {
    let mut v = Vec::new();
    for _ in 0..n {
        v.push(c);
    }
    v
}

#[test]
fn running_mean_of_identical_samples_is_the_sample() {
    let mut im = AccumulationImage::new(2, 2);
    let s = color(12345, 222, 65536);
    for _ in 0..5 {
        im.accumulate(&frame(s, 4));
    }
    for p in 0..4 {
        assert_eq!(im.mean_pixel(p), s);
    }
}

#[test]
fn running_mean_of_one_sample_is_the_sample() {
    let mut im = AccumulationImage::new(1, 1);
    let s = color(7, 0, u32::MAX);
    im.accumulate(&frame(s, 1));
    assert_eq!(im.mean_pixel(0), s);
}

#[test]
fn accumulation_is_order_independent() {
    let s1 = color(100, 200, 300);
    let s2 = color(65536, 0, 50);
    let s3 = color(1, 2, 3);

    let mut a = AccumulationImage::new(1, 1);
    a.accumulate(&frame(s1, 1));
    a.accumulate(&frame(s2, 1));
    a.accumulate(&frame(s3, 1));

    let mut b = AccumulationImage::new(1, 1);
    b.accumulate(&frame(s3, 1));
    b.accumulate(&frame(s1, 1));
    b.accumulate(&frame(s2, 1));

    assert_eq!(a.sums[0], b.sums[0]);
    assert_eq!(a.mean_pixel(0), b.mean_pixel(0));
}

#[test]
fn mean_is_exact_integer_quotient() {
    let mut im = AccumulationImage::new(1, 1);
    im.accumulate(&frame(color(10, 0, 5), 1));
    im.accumulate(&frame(color(20, 1, 5), 1));
    im.accumulate(&frame(color(31, 1, 5), 1));
    // sums (61, 2, 15) over 3 frames: floor quotients.
    assert_eq!(im.mean_pixel(0), color(20, 0, 5));
}

#[test]
fn reset_restarts_the_running_mean() {
    let mut im = AccumulationImage::new(1, 1);
    for _ in 0..50 {
        im.accumulate(&frame(color(1000, 1000, 1000), 1));
    }
    im.reset();
    assert_eq!(im.count, 0);
    let s = color(42, 0, 9);
    im.accumulate(&frame(s, 1));
    assert_eq!(im.count, 1);
    // The first post-reset frame overwrites: no trace of the 50 old samples.
    assert_eq!(im.mean_pixel(0), s);
}

#[test]
fn new_image_is_zeroed() {
    let im = AccumulationImage::new(3, 2);
    assert_eq!(im.sums.len(), 6);
    assert_eq!(im.count, 0);
    for p in 0..6 {
        assert_eq!(im.sums[p].r, 0);
        assert_eq!(im.sums[p].g, 0);
        assert_eq!(im.sums[p].b, 0);
    }
}
