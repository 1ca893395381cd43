//! Deterministic pseudo-random service: the xoshiro256++ generator seeded
//! through splitmix64, kept as four plain machine words so that every draw is
//! a pure function of the state. The spec functions below are the algorithm's
//! definition; the executable methods are proved to compute exactly them.
use vstd::prelude::*;

verus! {

/// Golden-ratio increment of the splitmix64 stream.
pub const PHI: u64 = 0x9e3779b97f4a7c15;

/// Fixed seed of the benchmark's single generator instance.
pub const DEFAULT_SEED: u64 = 395992934456271;

/// State of the xoshiro256++ generator.
#[derive(Clone, Copy, PartialEq, Eq, Structural, Debug)]
pub struct PseudoRng {
    pub s0: u64,
    pub s1: u64,
    pub s2: u64,
    pub s3: u64,
}

/// Left rotation of a 64-bit word by `k` places, `0 < k < 64`.
pub open spec fn rotl(x: u64, k: u64) -> u64 {
    (x << k) | (x >> ((64 - k) as u64))
}

/// The splitmix64 output mix applied to one state word.
pub open spec fn splitmix_mix(state: u64) -> u64 {
    let z1 = (state ^ (state >> 30)).wrapping_mul(0xbf58476d1ce4e5b9);
    let z2 = (z1 ^ (z1 >> 27)).wrapping_mul(0x94d049bb133111eb);
    z2 ^ (z2 >> 31)
}

/// The four state words produced by seeding with splitmix64: word `i` is the
/// mix of `seed + (i+1)*PHI`.
pub open spec fn seed_state(seed: u64) -> PseudoRng {
    let x1 = seed.wrapping_add(PHI);
    let x2 = x1.wrapping_add(PHI);
    let x3 = x2.wrapping_add(PHI);
    let x4 = x3.wrapping_add(PHI);
    PseudoRng {
        s0: splitmix_mix(x1),
        s1: splitmix_mix(x2),
        s2: splitmix_mix(x3),
        s3: splitmix_mix(x4),
    }
}

/// The 64-bit word that xoshiro256++ outputs from a given state.
pub open spec fn next_out(r: PseudoRng) -> u64 {
    rotl(r.s0.wrapping_add(r.s3), 23).wrapping_add(r.s0)
}

/// The successor state of xoshiro256++.
pub open spec fn next_state(r: PseudoRng) -> PseudoRng {
    let t = r.s1 << 17;
    let s2a = r.s2 ^ r.s0;
    let s3a = r.s3 ^ r.s1;
    let s1a = r.s1 ^ s2a;
    let s0a = r.s0 ^ s3a;
    PseudoRng { s0: s0a, s1: s1a, s2: s2a ^ t, s3: rotl(s3a, 45) }
}

/// Upper 24 bits of an output word: the numerator of a uniform draw over
/// [0, 1) in steps of 2^-24 (the resolution of a single-precision draw).
pub open spec fn bits24(x: u64) -> u64 {
    x >> 40
}

/// Upper 23 bits of an output word: the numerator of a uniform draw over
/// [0, 1) in steps of 2^-23 (the resolution of a ranged draw).
pub open spec fn bits23(x: u64) -> u64 {
    x >> 41
}

/// A fair coin read off the top bit of an output word.
pub open spec fn coin_of(x: u64) -> bool {
    (x >> 63) == 1
}

/// A 24-bit draw is below 2^24.
pub proof fn lemma_bits24_bound(x: u64)
    ensures
        bits24(x) < 16777216,
{
    assert(x >> 40 < 16777216) by (bit_vector);
}

/// A 23-bit draw is below 2^23.
pub proof fn lemma_bits23_bound(x: u64)
    ensures
        bits23(x) < 8388608,
{
    assert(x >> 41 < 8388608) by (bit_vector);
}

impl PseudoRng {
    /// Seed the generator from a single word, expanding it with splitmix64.
    pub fn seed_from_u64(seed: u64) -> (r: PseudoRng)
        ensures
            r == seed_state(seed),
    {
        let x1 = seed.wrapping_add(PHI);
        let x2 = x1.wrapping_add(PHI);
        let x3 = x2.wrapping_add(PHI);
        let x4 = x3.wrapping_add(PHI);
        PseudoRng {
            s0: Self::mix(x1),
            s1: Self::mix(x2),
            s2: Self::mix(x3),
            s3: Self::mix(x4),
        }
    }

    fn mix(state: u64) -> (r: u64)
        ensures
            r == splitmix_mix(state),
    {
        let z1 = (state ^ (state >> 30)).wrapping_mul(0xbf58476d1ce4e5b9);
        let z2 = (z1 ^ (z1 >> 27)).wrapping_mul(0x94d049bb133111eb);
        z2 ^ (z2 >> 31)
    }

    /// Advance the generator once and return its 64-bit output.
    pub fn next_u64(&mut self) -> (r: u64)
        ensures
            r == next_out(*old(self)),
            *final(self) == next_state(*old(self)),
    {
        let sum = self.s0.wrapping_add(self.s3);
        let result = ((sum << 23) | (sum >> 41)).wrapping_add(self.s0);
        let t = self.s1 << 17;
        self.s2 = self.s2 ^ self.s0;
        self.s3 = self.s3 ^ self.s1;
        self.s1 = self.s1 ^ self.s2;
        self.s0 = self.s0 ^ self.s3;
        self.s2 = self.s2 ^ t;
        self.s3 = (self.s3 << 45) | (self.s3 >> 19);
        result
    }

    /// One uniform draw over [0, 1) with 24-bit resolution; the result is the
    /// numerator over 2^24.
    pub fn uniform_bits24(&mut self) -> (r: u64)
        ensures
            r == bits24(next_out(*old(self))),
            *final(self) == next_state(*old(self)),
            r < 16777216,
    {
        let x = self.next_u64();
        let r = x >> 40;
        proof {
            assert(x >> 40 < 16777216) by (bit_vector);
        }
        r
    }

    /// One uniform draw over [0, 1) with 23-bit resolution; the result is the
    /// numerator over 2^23.
    pub fn uniform_bits23(&mut self) -> (r: u64)
        ensures
            r == bits23(next_out(*old(self))),
            *final(self) == next_state(*old(self)),
            r < 8388608,
    {
        let x = self.next_u64();
        let r = x >> 41;
        proof {
            assert(x >> 41 < 8388608) by (bit_vector);
        }
        r
    }

    /// One Bernoulli(1/2) draw.
    pub fn bernoulli_half(&mut self) -> (r: bool)
        ensures
            r == coin_of(next_out(*old(self))),
            *final(self) == next_state(*old(self)),
    {
        let x = self.next_u64();
        (x >> 63) == 1
    }
}

impl Default for PseudoRng {
    /// The benchmark's generator: seeded once from the fixed constant seed.
    fn default() -> (r: PseudoRng)
        ensures
            r == seed_state(DEFAULT_SEED),
    {
        PseudoRng::seed_from_u64(DEFAULT_SEED)
    }
}

} // verus!
