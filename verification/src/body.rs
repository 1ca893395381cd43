//! One rectangle of the population: its attributes, the exact fixed-point
//! values they take, and the bounds that hold of them for the body's whole
//! lifetime.
use crate::rng::{bits23, bits24, coin_of, next_out, next_state, PseudoRng};
use crate::{dims_ok, DIM_MAX, FP, POW23, POW24, STEP_MAX, TT_MIN, VEL_MAX, VEL_MIN,
    WIDTH_MAX, WIDTH_MIN, X_MAX, Y_MAX};
use vstd::arithmetic::div_mod::{lemma_div_denominator, lemma_div_is_ordered,
    lemma_div_multiples_vanish, lemma_div_pos_is_pos, lemma_multiply_divide_lt};
use vstd::arithmetic::mul::{lemma_mul_inequality, lemma_mul_nonnegative, lemma_mul_upper_bound,
    lemma_mul_strict_inequality};
use vstd::prelude::*;

verus! {

/// One simulated rectangle. `velocity` and `width` are fixed at spawn;
/// `teleport_target` follows the most recently observed viewport width;
/// `x` scrolls every frame, `y` moves only on resize, `z` is a draw-order
/// tiebreak assigned once.
#[derive(Clone, Copy, PartialEq, Eq, Structural, Debug)]
pub struct RectangleObject {
    pub velocity: i64,
    pub width: i64,
    pub teleport_target: i64,
    pub x: i64,
    pub y: i64,
    pub z: i64,
}

/// Width drawn from a 24-bit numerator: 10 + m/2^24 * 40, in [10, 50) pixels.
pub open spec fn width_val(m: int) -> int {
    WIDTH_MIN + (m * (WIDTH_MAX - WIDTH_MIN)) / (POW24 as int)
}

/// Velocity drawn from a 23-bit numerator: 60 + m/2^23 * 60, in [60, 120)
/// pixels per second.
pub open spec fn vel_val(m: int) -> int {
    VEL_MIN + (m * (VEL_MAX - VEL_MIN)) / (POW23 as int)
}

/// A coordinate placed uniformly across a centered span of size `dim`:
/// (m/2^24 - 1/2) * dim, with the magnitude rounded toward zero.
pub open spec fn centered_val(m: int, dim: int) -> int {
    if m >= POW23 {
        ((m - POW23) * dim) / (POW24 as int)
    } else {
        -(((POW23 - m) * dim) / (POW24 as int))
    }
}

/// Draw-order jitter in [0, 1): m/2^24 in fixed point.
pub open spec fn z_val(m: int) -> int {
    (m * FP) / (POW24 as int)
}

/// The teleport boundary for a body of width `width` on a viewport of width
/// `vw`: -(vw/2) - width.
pub open spec fn tt_val(vw: int, width: int) -> int {
    -(vw / 2) - width
}

/// Horizontal displacement of one frame: velocity * elapsed seconds.
pub open spec fn step_val(vel: int, dt: int) -> int {
    (vel * dt) / (FP as int)
}

/// A magnitude placed uniformly across the band [lo2, hi2).
pub open spec fn band_mag(m: int, lo2: int, hi2: int) -> int {
    lo2 + (m * (hi2 - lo2)) / (POW24 as int)
}

/// A vertical position placed uniformly across [-h/2, h/2).
pub open spec fn reclamp_val(m: int, h: int) -> int {
    (m * h) / (POW24 as int) - h / 2
}

/// Attribute and placement bounds that hold for a body's entire lifetime.
pub open spec fn body_core(b: RectangleObject) -> bool {
    &&& VEL_MIN <= b.velocity < VEL_MAX
    &&& WIDTH_MIN <= b.width < WIDTH_MAX
    &&& TT_MIN <= b.teleport_target <= 0
    &&& -Y_MAX <= b.y <= Y_MAX
    &&& 0 <= b.z < FP
}

/// A body's state between frames: after the wrap step has run.
pub open spec fn body_rest(b: RectangleObject) -> bool {
    body_core(b) && TT_MIN <= b.x <= X_MAX
}

/// A body's state between the movement and wrap steps.
pub open spec fn body_mid(b: RectangleObject) -> bool {
    body_core(b) && TT_MIN - STEP_MAX <= b.x <= X_MAX
}

/// A scaled 24-bit draw lands strictly within its span.
pub proof fn lemma_scaled24_bounds(m: int, span: int)
    requires
        0 <= m < POW24,
        0 < span,
    ensures
        0 <= (m * span) / (POW24 as int) < span,
{
    lemma_mul_nonnegative(m, span);
    lemma_div_pos_is_pos(m * span, POW24 as int);
    lemma_mul_strict_inequality(m, POW24 as int, span);
    lemma_multiply_divide_lt(m * span, POW24 as int, span);
}

/// A scaled 23-bit draw lands strictly within its span.
pub proof fn lemma_scaled23_bounds(m: int, span: int)
    requires
        0 <= m < POW23,
        0 < span,
    ensures
        0 <= (m * span) / (POW23 as int) < span,
{
    lemma_mul_nonnegative(m, span);
    lemma_div_pos_is_pos(m * span, POW23 as int);
    lemma_mul_strict_inequality(m, POW23 as int, span);
    lemma_multiply_divide_lt(m * span, POW23 as int, span);
}

/// A centered placement lands within [-dim/2, dim/2].
pub proof fn lemma_centered_bounds(m: int, dim: int)
    requires
        0 <= m < POW24,
        0 <= dim,
    ensures
        -(dim / 2) <= centered_val(m, dim) <= dim / 2,
{
    let k = if m >= POW23 { m - POW23 } else { POW23 - m };
    lemma_mul_nonnegative(k, dim);
    lemma_div_pos_is_pos(k * dim, POW24 as int);
    lemma_mul_inequality(k, POW23 as int, dim);
    lemma_div_is_ordered(k * dim, POW23 * dim, POW24 as int);
    lemma_mul_nonnegative(dim, POW23 as int);
    lemma_div_denominator(dim * POW23, POW23 as int, 2);
    lemma_div_multiples_vanish(dim, POW23 as int);
    assert((POW23 * dim) / (POW24 as int) == dim / 2);
}

/// The body spawned by the next five draws of the generator, together with
/// the generator state after them. The draw order is width, velocity, x, y, z.
pub open spec fn spawn_one(rng: PseudoRng, vw: i64, vh: i64) -> (RectangleObject, PseudoRng) {
    let m_w = bits24(next_out(rng));
    let r1 = next_state(rng);
    let m_v = bits23(next_out(r1));
    let r2 = next_state(r1);
    let m_x = bits24(next_out(r2));
    let r3 = next_state(r2);
    let m_y = bits24(next_out(r3));
    let r4 = next_state(r3);
    let m_z = bits24(next_out(r4));
    let r5 = next_state(r4);
    let w = width_val(m_w as int);
    (
        RectangleObject {
            velocity: vel_val(m_v as int) as i64,
            width: w as i64,
            teleport_target: tt_val(vw as int, w) as i64,
            x: centered_val(m_x as int, vw as int) as i64,
            y: centered_val(m_y as int, vh as int) as i64,
            z: z_val(m_z as int) as i64,
        },
        r5,
    )
}

/// A body spawned within the core's viewport bounds is within its lifetime
/// bounds.
pub proof fn lemma_spawn_one_rest(rng: PseudoRng, vw: i64, vh: i64)
    requires
        dims_ok(vw, vh),
    ensures
        body_rest(spawn_one(rng, vw, vh).0),
{
    let r1 = next_state(rng);
    let r2 = next_state(r1);
    let r3 = next_state(r2);
    let r4 = next_state(r3);
    crate::rng::lemma_bits24_bound(next_out(rng));
    crate::rng::lemma_bits23_bound(next_out(r1));
    crate::rng::lemma_bits24_bound(next_out(r2));
    crate::rng::lemma_bits24_bound(next_out(r3));
    crate::rng::lemma_bits24_bound(next_out(r4));
    lemma_scaled24_bounds(bits24(next_out(rng)) as int, (WIDTH_MAX - WIDTH_MIN) as int);
    lemma_scaled23_bounds(bits23(next_out(r1)) as int, (VEL_MAX - VEL_MIN) as int);
    lemma_centered_bounds(bits24(next_out(r2)) as int, vw as int);
    lemma_centered_bounds(bits24(next_out(r3)) as int, vh as int);
    lemma_scaled24_bounds(bits24(next_out(r4)) as int, FP as int);
}

/// (a * b) / d on machine words, exactly.
pub(crate) fn mul_div(a: u64, b: u64, d: u64) -> (r: u64)
    requires
        d > 0,
        a <= 0xffff_ffff,
        b <= 0xffff_ffff,
    ensures
        r == (a * b) / (d as int),
        a < d ==> r <= b,
{
    proof {
        lemma_mul_upper_bound(a as int, 0xffff_ffff, b as int, 0xffff_ffff);
        if a < d && b > 0 {
            lemma_mul_strict_inequality(a as int, d as int, b as int);
            lemma_multiply_divide_lt((a * b) as int, d as int, b as int);
        }
    }
    (a * b) / d
}

/// A coordinate placed uniformly across a centered span of size `dim`, from a
/// 24-bit numerator.
pub(crate) fn centered(m: u64, dim: i64) -> (r: i64)
    requires
        m < POW24,
        0 <= dim <= DIM_MAX,
    ensures
        r == centered_val(m as int, dim as int),
{
    if m >= (POW23 as u64) {
        let mag = mul_div(m - (POW23 as u64), dim as u64, POW24 as u64);
        mag as i64
    } else {
        let mag = mul_div((POW23 as u64) - m, dim as u64, POW24 as u64);
        -(mag as i64)
    }
}

/// Create one body from the generator and the current viewport dimensions.
pub fn spawn_body(rng: &mut PseudoRng, vw: i64, vh: i64) -> (b: RectangleObject)
    requires
        dims_ok(vw, vh),
    ensures
        b == spawn_one(*old(rng), vw, vh).0,
        *final(rng) == spawn_one(*old(rng), vw, vh).1,
        body_rest(b),
{
    let m_w = rng.uniform_bits24();
    let m_v = rng.uniform_bits23();
    let m_x = rng.uniform_bits24();
    let m_y = rng.uniform_bits24();
    let m_z = rng.uniform_bits24();
    let width = WIDTH_MIN + mul_div(m_w, (WIDTH_MAX - WIDTH_MIN) as u64, POW24 as u64) as i64;
    let velocity = VEL_MIN + mul_div(m_v, (VEL_MAX - VEL_MIN) as u64, POW23 as u64) as i64;
    let half_w = ((vw as u64) / 2) as i64;
    let teleport_target = -half_w - width;
    let x = centered(m_x, vw);
    let y = centered(m_y, vh);
    let z = mul_div(m_z, FP as u64, POW24 as u64) as i64;
    proof {
        lemma_scaled24_bounds(m_w as int, (WIDTH_MAX - WIDTH_MIN) as int);
        lemma_scaled23_bounds(m_v as int, (VEL_MAX - VEL_MIN) as int);
        lemma_scaled24_bounds(m_z as int, FP as int);
        lemma_centered_bounds(m_x as int, vw as int);
        lemma_centered_bounds(m_y as int, vh as int);
    }
    RectangleObject { velocity, width, teleport_target, x, y, z }
}

/// The body with its teleport boundary recomputed for viewport width `vw`.
pub open spec fn retargeted_body(b: RectangleObject, vw: i64) -> RectangleObject {
    RectangleObject { teleport_target: tt_val(vw as int, b.width as int) as i64, ..b }
}

/// The body after one movement step of `dt` seconds.
pub open spec fn moved_body(b: RectangleObject, dt: i64) -> RectangleObject {
    RectangleObject { x: (b.x - step_val(b.velocity as int, dt as int)) as i64, ..b }
}

/// The body after the wrap step: reflected about the origin when it has
/// crossed its teleport boundary.
pub open spec fn wrapped_body(b: RectangleObject) -> RectangleObject {
    if b.x < b.teleport_target {
        RectangleObject { x: (-(b.x as int)) as i64, ..b }
    } else {
        b
    }
}

/// The respawn decision for one body when the viewport grew from height
/// `prev` to `h`: one draw decides; if it falls below 1 - prev/h the vertical
/// position is resampled from the newly revealed band [prev/2, h/2) and given
/// a random sign; otherwise the body is left untouched.
pub open spec fn respawn_one(b: RectangleObject, rng: PseudoRng, prev: i64, h: i64) -> (
    RectangleObject,
    PseudoRng,
) {
    let m_r = bits24(next_out(rng));
    let r1 = next_state(rng);
    if (m_r as int) * h < (h - prev) * (POW24 as int) {
        let m_y = bits24(next_out(r1));
        let r2 = next_state(r1);
        let neg = coin_of(next_out(r2));
        let r3 = next_state(r2);
        let mag = band_mag(m_y as int, (prev as int) / 2, (h as int) / 2);
        (RectangleObject { y: (if neg { -mag } else { mag }) as i64, ..b }, r3)
    } else {
        (b, r1)
    }
}

/// The reclamp decision for one body when the viewport did not grow: a body
/// whose vertical position lies outside [-h/2, h/2] is resampled uniformly
/// over that range; others are left untouched.
pub open spec fn reclamp_one(b: RectangleObject, rng: PseudoRng, h: i64) -> (
    RectangleObject,
    PseudoRng,
) {
    let h2 = (h as int) / 2;
    if b.y < -h2 || b.y > h2 {
        let m_y = bits24(next_out(rng));
        let r1 = next_state(rng);
        (RectangleObject { y: reclamp_val(m_y as int, h as int) as i64, ..b }, r1)
    } else {
        (b, rng)
    }
}

/// Apply the respawn decision to one body.
pub(crate) fn respawn_body(b: RectangleObject, rng: &mut PseudoRng, prev: i64, h: i64) -> (r:
    RectangleObject)
    requires
        0 <= prev < h <= DIM_MAX,
    ensures
        r == respawn_one(b, *old(rng), prev, h).0,
        *final(rng) == respawn_one(b, *old(rng), prev, h).1,
        r.y != b.y ==> -Y_MAX <= r.y <= Y_MAX,
{
    let m_r = rng.uniform_bits24();
    proof {
        lemma_mul_upper_bound(m_r as int, POW24 as int, h as int, DIM_MAX as int);
        lemma_mul_upper_bound((h - prev) as int, DIM_MAX as int, POW24 as int, POW24 as int);
    }
    let lhs = m_r * (h as u64);
    let rhs = ((h - prev) as u64) * (POW24 as u64);
    if lhs < rhs {
        let m_y = rng.uniform_bits24();
        let neg = rng.bernoulli_half();
        let p2 = ((prev as u64) / 2) as i64;
        let h2 = ((h as u64) / 2) as i64;
        let mag = p2 + mul_div(m_y, (h2 - p2) as u64, POW24 as u64) as i64;
        let y = if neg { -mag } else { mag };
        RectangleObject { y, ..b }
    } else {
        b
    }
}

/// Apply the reclamp decision to one body.
pub(crate) fn reclamp_body(b: RectangleObject, rng: &mut PseudoRng, h: i64) -> (r:
    RectangleObject)
    requires
        0 < h <= DIM_MAX,
    ensures
        r == reclamp_one(b, *old(rng), h).0,
        *final(rng) == reclamp_one(b, *old(rng), h).1,
        r.y != b.y ==> -Y_MAX <= r.y <= Y_MAX,
{
    let h2 = ((h as u64) / 2) as i64;
    if b.y < -h2 || b.y > h2 {
        let m_y = rng.uniform_bits24();
        let off = mul_div(m_y, h as u64, POW24 as u64) as i64;
        RectangleObject { y: off - h2, ..b }
    } else {
        b
    }
}

} // verus!
