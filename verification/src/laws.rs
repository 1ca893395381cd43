//! The library's stated laws, proved once and for all over the spec-level
//! transition functions that every executable method is contracted to.
use crate::body::{band_mag, body_rest, lemma_scaled24_bounds, respawn_one,
    wrapped_body, RectangleObject};
use crate::resize::{last_resize, reclamp_prefix, respawn_prefix, retarget_all, bounds_spec};
use crate::rng::{bits24, next_out, PseudoRng};
use crate::sim::{grow_target, lemma_spawn_seq_len, mouse_spec, state_wf, SimState};
use crate::body::tt_val;
use crate::{Viewport, ResizeEvent, DIM_MAX, POW24, VEL_MAX, VEL_MIN, WIDTH_MAX, WIDTH_MIN};
use vstd::prelude::*;

verus! {

/// Attribute bounds: for every body of a well-formed state, velocity lies in
/// [60, 120) pixels per second and width in [10, 50) pixels, in fixed point.
pub proof fn lemma_attribute_bounds(s: SimState)
    requires
        state_wf(s),
    ensures
        forall|i: int| 0 <= i < s.bodies.len() ==> {
            &&& VEL_MIN <= (#[trigger] s.bodies[i]).velocity < VEL_MAX
            &&& WIDTH_MIN <= s.bodies[i].width < WIDTH_MAX
        },
{
    assert forall|i: int| 0 <= i < s.bodies.len() implies {
        &&& VEL_MIN <= (#[trigger] s.bodies[i]).velocity < VEL_MAX
        &&& WIDTH_MIN <= s.bodies[i].width < WIDTH_MAX
    } by {
        assert(body_rest(s.bodies[i]));
    }
}

/// Count invariant: after the grow/shrink controller has consumed this
/// frame's signals, the live body count equals the target count, whatever
/// combination of signals fired.
pub proof fn lemma_count_invariant(s: SimState, grow: bool, shrink: bool, v: Viewport)
    requires
        state_wf(s),
        s.initialized,
        grow ==> s.count <= 0x7fff_ffff,
    ensures
        mouse_spec(s, grow, shrink, Option::Some(v)).bodies.len()
            == mouse_spec(s, grow, shrink, Option::Some(v)).count,
{
    if grow {
        lemma_spawn_seq_len(
            s.rng,
            (grow_target(s.count) - s.count) as nat,
            v.width,
            v.height,
        );
    }
}

/// Growth law: one grow signal doubles the target (floor one), leaves every
/// existing body untouched, and appends exactly the difference as new bodies.
pub proof fn lemma_growth_law(s: SimState, v: Viewport)
    requires
        state_wf(s),
        s.initialized,
        s.count <= 0x7fff_ffff,
    ensures
        mouse_spec(s, true, false, Option::Some(v)).count == grow_target(s.count),
        mouse_spec(s, true, false, Option::Some(v)).bodies.len() == grow_target(s.count),
        forall|i: int| 0 <= i < s.bodies.len()
            ==> mouse_spec(s, true, false, Option::Some(v)).bodies[i] == s.bodies[i],
{
    lemma_spawn_seq_len(s.rng, (grow_target(s.count) - s.count) as nat, v.width, v.height);
}

/// Shrink law: one shrink signal halves the target by integer division,
/// removes exactly the difference, and the survivors are the unchanged prefix
/// of the previous population. At a target of one the halving reaches zero:
/// the floor of one applies only to growth.
pub proof fn lemma_shrink_law(s: SimState, v: Viewport)
    requires
        state_wf(s),
        s.initialized,
    ensures
        mouse_spec(s, false, true, Option::Some(v)).count == s.count / 2,
        mouse_spec(s, false, true, Option::Some(v)).bodies.len() == s.count / 2,
        forall|i: int| 0 <= i < s.count / 2
            ==> mouse_spec(s, false, true, Option::Some(v)).bodies[i] == s.bodies[i],
{
}

/// Wrap correctness: a body that has crossed its teleport boundary, by any
/// margin, is reflected to exactly the negation of its position within the
/// same frame; nothing else about it changes.
pub proof fn lemma_wrap_reflection(b: RectangleObject)
    requires
        b.x < b.teleport_target,
        crate::body::body_mid(b),
    ensures
        wrapped_body(b).x == -b.x,
        wrapped_body(b).velocity == b.velocity,
        wrapped_body(b).width == b.width,
        wrapped_body(b).teleport_target == b.teleport_target,
        wrapped_body(b).y == b.y,
        wrapped_body(b).z == b.z,
{
}

/// Probabilistic respawn: one 24-bit draw decides; the body is resampled
/// exactly when the draw, as a fraction of 2^24, falls below the respawn
/// probability 1 - prev/h. A resampled body keeps every attribute but its
/// vertical position, whose magnitude lands in the newly revealed band
/// [prev/2, h/2); an undecided body is left entirely untouched.
pub proof fn lemma_respawn_band(b: RectangleObject, rng: PseudoRng, prev: i64, h: i64)
    requires
        0 <= prev < h <= DIM_MAX,
    ensures
        ({
            let picked = (bits24(next_out(rng)) as int) * h < (h - prev) * (POW24 as int);
            let nb = respawn_one(b, rng, prev, h).0;
            &&& !picked ==> nb == b
            &&& picked ==> nb.velocity == b.velocity && nb.width == b.width
                && nb.teleport_target == b.teleport_target && nb.x == b.x && nb.z == b.z
            &&& picked ==> {
                let mag = if nb.y < 0 { -(nb.y as int) } else { nb.y as int };
                &&& (prev as int) / 2 <= mag
                &&& (prev as int) / 2 < (h as int) / 2 ==> mag < (h as int) / 2
            }
        }),
{
    let picked = (bits24(next_out(rng)) as int) * h < (h - prev) * (POW24 as int);
    if picked {
        let r1 = crate::rng::next_state(rng);
        let m_y = bits24(next_out(r1));
        let r2 = crate::rng::next_state(r1);
        let neg = crate::rng::coin_of(next_out(r2));
        crate::rng::lemma_bits24_bound(next_out(r1));
        let p2 = (prev as int) / 2;
        let h2 = (h as int) / 2;
        let magb = band_mag(m_y as int, p2, h2);
        assert(0 <= p2 <= h2 <= 536870912);
        if p2 < h2 {
            lemma_scaled24_bounds(m_y as int, h2 - p2);
            assert(p2 <= magb < h2);
        } else {
            assert(h2 - p2 == 0);
            assert((m_y as int) * (h2 - p2) == 0) by {
                vstd::arithmetic::mul::lemma_mul_by_zero_is_zero(m_y as int);
            }
            assert(magb == p2);
        }
        let nb = respawn_one(b, rng, prev, h).0;
        assert(nb.y == (if neg { -magb } else { magb }) as i64);
        assert(if nb.y < 0 { -(nb.y as int) } else { nb.y as int } == magb);
    }
}

/// Resize recompute: when a resize event for the primary viewport is
/// consumed, every body's teleport boundary is recomputed to
/// -(width/2) - body.width within the same frame, exactly once, from the most
/// recent matching event alone; events for other viewports change nothing.
pub proof fn lemma_resize_recompute(s: SimState, events: Seq<ResizeEvent>, v: Viewport, e: ResizeEvent)
    requires
        state_wf(s),
        last_resize(events, v.id) == Option::Some(e),
    ensures
        bounds_spec(s, events, Option::Some(v)).bodies.len() == s.bodies.len(),
        forall|i: int| 0 <= i < s.bodies.len()
            ==> bounds_spec(s, events, Option::Some(v)).bodies[i].teleport_target
                == tt_val(e.width as int, s.bodies[i].width as int) as i64,
        forall|i: int| 0 <= i < s.bodies.len()
            ==> bounds_spec(s, events, Option::Some(v)).bodies[i].width == s.bodies[i].width,
{
    let prev0 = if s.prev_height == 0 { v.height } else { s.prev_height };
    let b1 = retarget_all(s.bodies, e.width);
    assert(b1.len() == s.bodies.len());
    if prev0 < e.height {
        lemma_respawn_prefix_frame(b1, s.rng, prev0, e.height, b1.len() as int);
    } else {
        lemma_reclamp_prefix_frame(b1, s.rng, e.height, b1.len() as int);
    }
}

/// The respawn pass changes at most the vertical position of each body.
pub proof fn lemma_respawn_prefix_frame(
    orig: Seq<RectangleObject>,
    rng: PseudoRng,
    prev: i64,
    h: i64,
    k: int,
)
    requires
        0 <= k <= orig.len(),
    ensures
        respawn_prefix(orig, rng, prev, h, k).0.len() == k,
        forall|i: int| 0 <= i < k ==> {
            let nb = #[trigger] respawn_prefix(orig, rng, prev, h, k).0[i];
            &&& nb.velocity == orig[i].velocity
            &&& nb.width == orig[i].width
            &&& nb.teleport_target == orig[i].teleport_target
            &&& nb.x == orig[i].x
            &&& nb.z == orig[i].z
        },
    decreases k,
{
    if k > 0 {
        lemma_respawn_prefix_frame(orig, rng, prev, h, k - 1);
    }
}

/// The reclamp pass changes at most the vertical position of each body.
pub proof fn lemma_reclamp_prefix_frame(
    orig: Seq<RectangleObject>,
    rng: PseudoRng,
    h: i64,
    k: int,
)
    requires
        0 <= k <= orig.len(),
    ensures
        reclamp_prefix(orig, rng, h, k).0.len() == k,
        forall|i: int| 0 <= i < k ==> {
            let nb = #[trigger] reclamp_prefix(orig, rng, h, k).0[i];
            &&& nb.velocity == orig[i].velocity
            &&& nb.width == orig[i].width
            &&& nb.teleport_target == orig[i].teleport_target
            &&& nb.x == orig[i].x
            &&& nb.z == orig[i].z
        },
    decreases k,
{
    if k > 0 {
        lemma_reclamp_prefix_frame(orig, rng, h, k - 1);
    }
}

} // verus!
