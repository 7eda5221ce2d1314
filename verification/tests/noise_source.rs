use raytracer::noise::NoiseSource;
use raytracer::passes::{noise_jitter, NOISE_BUFFER_SIZE};

#[test]
fn block_has_one_frame_of_draws() {
    let mut n = NoiseSource::new(1);
    assert_eq!(n.block().len(), NOISE_BUFFER_SIZE);
    n.refresh();
    assert_eq!(n.block().len(), NOISE_BUFFER_SIZE);
}

#[test]
fn same_seed_gives_the_same_draws() {
    let mut a = NoiseSource::new(12345);
    let mut b = NoiseSource::new(12345);
    a.refresh();
    b.refresh();
    assert_eq!(a.block(), b.block());
    a.refresh();
    b.refresh();
    assert_eq!(a.block(), b.block());
}

#[test]
fn different_seeds_give_different_draws() {
    let mut a = NoiseSource::new(1);
    let mut b = NoiseSource::new(2);
    a.refresh();
    b.refresh();
    assert_ne!(a.block(), b.block());
}

#[test]
fn refresh_advances_the_stream() {
    // Each refresh consumes one block of the stream: successive blocks from
    // one source are the consecutive blocks two staggered sources see.
    let mut a = NoiseSource::new(77);
    a.refresh();
    let first = a.block().clone();
    a.refresh();
    let second = a.block().clone();
    assert_ne!(first, second);
    let mut b = NoiseSource::new(77);
    b.refresh();
    assert_eq!(b.block(), &first);
    b.refresh();
    assert_eq!(b.block(), &second);
}

#[test]
fn refresh_draws_from_the_reference_generator() {
    // The Mersenne Twister reference stream for seed 5489 starts with
    // 3499211612; a refresh that left the block untouched would keep zeros.
    let mut n = NoiseSource::new(5489);
    n.refresh();
    assert_eq!(n.block()[0], 3499211612);
}

#[test]
fn jitter_tiles_and_folds_the_draws() {
    let mut noise = vec![0u32; NOISE_BUFFER_SIZE];
    noise[0] = 65537; // cell (0, 0) channel 0
    noise[5] = 40000; // cell (1, 0) channel 2
    assert_eq!(noise_jitter(&noise, 0, 0, 0), 1);
    assert_eq!(noise_jitter(&noise, 1, 0, 2), 40000);
    // The tile repeats every 16 pixels in each direction.
    assert_eq!(noise_jitter(&noise, 16, 16, 0), 1);
    assert_eq!(noise_jitter(&noise, 17, 32, 2), 40000);
}
