//! The per-frame movement and wrap updates: every body scrolls left by
//! velocity * elapsed, and a body that has crossed its teleport boundary is
//! reflected about the origin.
use crate::body::{body_mid, body_rest, moved_body, mul_div, step_val, wrapped_body,
    RectangleObject};
use crate::sim::Simulation;
use crate::{DT_MAX, FP, STEP_MAX, VEL_MAX};
use vstd::arithmetic::div_mod::lemma_div_is_ordered;
use vstd::arithmetic::mul::lemma_mul_upper_bound;
use vstd::prelude::*;

verus! {

/// Every body after one movement step of `dt` seconds.
pub open spec fn move_all(bodies: Seq<RectangleObject>, dt: i64) -> Seq<RectangleObject> {
    bodies.map(|i: int, b: RectangleObject| moved_body(b, dt))
}

/// Every body after the wrap step.
pub open spec fn wrap_all(bodies: Seq<RectangleObject>) -> Seq<RectangleObject> {
    bodies.map(|i: int, b: RectangleObject| wrapped_body(b))
}

/// A movement step never exceeds STEP_MAX.
pub proof fn lemma_step_bound(vel: int, dt: int)
    requires
        0 <= vel < VEL_MAX,
        0 <= dt <= DT_MAX,
    ensures
        0 <= step_val(vel, dt) <= STEP_MAX,
{
    lemma_mul_upper_bound(vel, VEL_MAX as int, dt, DT_MAX as int);
    lemma_div_is_ordered(vel * dt, (VEL_MAX as int) * (DT_MAX as int), FP as int);
    vstd::arithmetic::mul::lemma_mul_nonnegative(vel, dt);
    vstd::arithmetic::div_mod::lemma_div_pos_is_pos(vel * dt, FP as int);
}

impl Simulation {
    /// The movement step: advance every body's horizontal position by its own
    /// velocity over this frame's elapsed time.
    pub fn movement(&mut self, elapsed: i64)
        requires
            0 <= elapsed <= DT_MAX,
            forall|i: int| 0 <= i < old(self).rectangles@.len()
                ==> body_rest(#[trigger] old(self).rectangles@[i]),
        ensures
            final(self).rectangles@ == move_all(old(self).rectangles@, elapsed),
            forall|i: int| 0 <= i < final(self).rectangles@.len()
                ==> body_mid(#[trigger] final(self).rectangles@[i]),
            final(self).rng == old(self).rng,
            final(self).stats == old(self).stats,
            final(self).previous_viewport_height == old(self).previous_viewport_height,
            final(self).initialized == old(self).initialized,
    {
        let ghost b0 = self.rectangles@;
        let mut i: usize = 0;
        while i < self.rectangles.len()
            invariant
                i <= self.rectangles@.len(),
                self.rectangles@.len() == b0.len(),
                0 <= elapsed <= DT_MAX,
                forall|j: int| 0 <= j < b0.len() ==> body_rest(#[trigger] b0[j]),
                forall|j: int| 0 <= j < i ==> self.rectangles@[j] == moved_body(b0[j], elapsed),
                forall|j: int| i <= j < b0.len() ==> self.rectangles@[j] == b0[j],
                forall|j: int| 0 <= j < i ==> body_mid(#[trigger] self.rectangles@[j]),
                self.rng == old(self).rng,
                self.stats == old(self).stats,
                self.previous_viewport_height == old(self).previous_viewport_height,
                self.initialized == old(self).initialized,
            decreases self.rectangles@.len() - i,
        {
            let b = self.rectangles[i];
            proof {
                assert(b == b0[i as int]);
                assert(body_rest(b0[i as int]));
            }
            let step_w = mul_div(b.velocity as u64, elapsed as u64, FP as u64);
            proof {
                lemma_step_bound(b.velocity as int, elapsed as int);
            }
            let step = step_w as i64;
            let nb = RectangleObject { x: b.x - step, ..b };
            self.rectangles[i] = nb;
            i = i + 1;
        }
        proof {
            assert(self.rectangles@ =~= move_all(b0, elapsed));
        }
    }

    /// The wrap step: a body whose position has fallen below its teleport
    /// boundary is reflected about the origin.
    pub fn collision_detection(&mut self)
        requires
            forall|i: int| 0 <= i < old(self).rectangles@.len()
                ==> body_mid(#[trigger] old(self).rectangles@[i]),
        ensures
            final(self).rectangles@ == wrap_all(old(self).rectangles@),
            forall|i: int| 0 <= i < final(self).rectangles@.len()
                ==> body_rest(#[trigger] final(self).rectangles@[i]),
            final(self).rng == old(self).rng,
            final(self).stats == old(self).stats,
            final(self).previous_viewport_height == old(self).previous_viewport_height,
            final(self).initialized == old(self).initialized,
    {
        let ghost b0 = self.rectangles@;
        let mut i: usize = 0;
        while i < self.rectangles.len()
            invariant
                i <= self.rectangles@.len(),
                self.rectangles@.len() == b0.len(),
                forall|j: int| 0 <= j < b0.len() ==> body_mid(#[trigger] b0[j]),
                forall|j: int| 0 <= j < i ==> self.rectangles@[j] == wrapped_body(b0[j]),
                forall|j: int| i <= j < b0.len() ==> self.rectangles@[j] == b0[j],
                forall|j: int| 0 <= j < i ==> body_rest(#[trigger] self.rectangles@[j]),
                self.rng == old(self).rng,
                self.stats == old(self).stats,
                self.previous_viewport_height == old(self).previous_viewport_height,
                self.initialized == old(self).initialized,
            decreases self.rectangles@.len() - i,
        {
            let b = self.rectangles[i];
            proof {
                assert(b == b0[i as int]);
                assert(body_mid(b0[i as int]));
            }
            if b.x < b.teleport_target {
                let nb = RectangleObject { x: -b.x, ..b };
                self.rectangles[i] = nb;
            }
            i = i + 1;
        }
        proof {
            assert(self.rectangles@ =~= wrap_all(b0));
        }
    }
}

} // verus!
