//! The generator must be bit-for-bit the xoshiro256++ stream that the rand
//! ecosystem produces for the same seed, and the fixed-point draws must match
//! the single-precision pipeline built on it.
use rand::Rng;
use rand_xoshiro::rand_core::{RngCore, SeedableRng};
use rand_xoshiro::Xoshiro256PlusPlus;
use rectangles::rng::{PseudoRng, DEFAULT_SEED};

#[test]
fn xoshiro_matches_reference_crate() {
    for seed in [DEFAULT_SEED, 0u64, 1, 42, 123_456_789, u64::MAX] {
        let mut mine = PseudoRng::seed_from_u64(seed);
        let mut reference = Xoshiro256PlusPlus::seed_from_u64(seed);
        for _ in 0..200 {
            assert_eq!(mine.next_u64(), reference.next_u64());
        }
    }
}

#[test]
fn default_seed_matches_reference_crate() {
    let mut mine = PseudoRng::default();
    let mut reference = Xoshiro256PlusPlus::seed_from_u64(395_992_934_456_271);
    for _ in 0..100 {
        assert_eq!(mine.next_u64(), reference.next_u64());
    }
}

#[test]
fn bits24_matches_f32_standard_draw() {
    // rand's Standard f32 uses the top 24 bits of next_u32, and next_u32 of a
    // 64-bit xoshiro generator is the upper word of next_u64.
    let mut mine = PseudoRng::seed_from_u64(DEFAULT_SEED);
    let mut reference = Xoshiro256PlusPlus::seed_from_u64(DEFAULT_SEED);
    for _ in 0..100 {
        let m = mine.uniform_bits24();
        let f: f32 = reference.gen();
        assert_eq!(f, (m as f32) / 16_777_216.0);
    }
}

#[test]
fn bits23_tracks_ranged_f32_draw() {
    // A single gen_range(60.0..120.0) draw discards 9 of 32 bits; the
    // fixed-point velocity built from the same 23 bits agrees to float
    // rounding. Fresh generators each round keep the streams aligned even if
    // the float path ever redraws.
    for seed in [DEFAULT_SEED, 7u64, 1000, 424_242] {
        let mut mine = PseudoRng::seed_from_u64(seed);
        let mut reference = Xoshiro256PlusPlus::seed_from_u64(seed);
        let m = mine.uniform_bits23();
        let fixed = 60.0 + (m as f64) / 8_388_608.0 * 60.0;
        let float: f32 = reference.gen_range(60.0..120.0);
        assert!((fixed - float as f64).abs() < 1e-3);
        assert!((60.0..120.0).contains(&float));
    }
}

#[test]
fn draws_are_deterministic() {
    let mut a = PseudoRng::seed_from_u64(DEFAULT_SEED);
    let mut b = PseudoRng::seed_from_u64(DEFAULT_SEED);
    for _ in 0..50 {
        assert_eq!(a.uniform_bits24(), b.uniform_bits24());
        assert_eq!(a.uniform_bits23(), b.uniform_bits23());
        assert_eq!(a.bernoulli_half(), b.bernoulli_half());
    }
}
