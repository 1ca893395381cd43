//! The resize reactor: consume at most one resize event per frame (the most
//! recent one for the primary viewport), recompute every body's teleport
//! boundary, and re-derive vertical placement — probabilistically when the
//! viewport grew taller, by reclamping when it did not.
use crate::body::{body_rest, reclamp_body, reclamp_one, respawn_body, respawn_one,
    retargeted_body, RectangleObject};
use crate::rng::PseudoRng;
use crate::sim::{SimState, Simulation};
use crate::{vp_ok, ResizeEvent, Viewport, DIM_MAX, TT_MIN};
use vstd::prelude::*;

verus! {

/// The most recent event for viewport `id` among this frame's queued resize
/// events; earlier ones are discarded (last-write-wins).
pub open spec fn last_resize(events: Seq<ResizeEvent>, id: u64) -> Option<ResizeEvent>
    decreases events.len(),
{
    if events.len() == 0 {
        Option::None
    } else if events.last().window == id {
        Option::Some(events.last())
    } else {
        last_resize(events.drop_last(), id)
    }
}

/// Every body with its teleport boundary recomputed for viewport width `vw`.
pub open spec fn retarget_all(bodies: Seq<RectangleObject>, vw: i64) -> Seq<RectangleObject> {
    bodies.map(|i: int, b: RectangleObject| retargeted_body(b, vw))
}

/// The first `k` bodies after the probabilistic respawn pass, with the
/// generator state after their draws; body 0 draws first.
pub open spec fn respawn_prefix(
    orig: Seq<RectangleObject>,
    rng: PseudoRng,
    prev: i64,
    h: i64,
    k: int,
) -> (Seq<RectangleObject>, PseudoRng)
    decreases k,
{
    if k <= 0 {
        (Seq::empty(), rng)
    } else {
        let p = respawn_prefix(orig, rng, prev, h, k - 1);
        let one = respawn_one(orig[k - 1], p.1, prev, h);
        (p.0.push(one.0), one.1)
    }
}

/// The first `k` bodies after the reclamp pass, with the generator state
/// after their draws; body 0 draws first.
pub open spec fn reclamp_prefix(orig: Seq<RectangleObject>, rng: PseudoRng, h: i64, k: int) -> (
    Seq<RectangleObject>,
    PseudoRng,
)
    decreases k,
{
    if k <= 0 {
        (Seq::empty(), rng)
    } else {
        let p = reclamp_prefix(orig, rng, h, k - 1);
        let one = reclamp_one(orig[k - 1], p.1, h);
        (p.0.push(one.0), one.1)
    }
}

/// The state after the resize reactor has run: with no viewport nothing
/// happens; otherwise the height memory is initialized on the first run, and
/// if a resize event for the primary viewport is pending, every teleport
/// boundary is recomputed and vertical placement is re-derived.
pub open spec fn bounds_spec(s: SimState, events: Seq<ResizeEvent>, vp: Option<Viewport>) -> SimState {
    match vp {
        Option::None => s,
        Option::Some(v) => {
            let prev0 = if s.prev_height == 0 {
                v.height
            } else {
                s.prev_height
            };
            match last_resize(events, v.id) {
                Option::None => SimState { prev_height: prev0, ..s },
                Option::Some(e) => {
                    let b1 = retarget_all(s.bodies, e.width);
                    if prev0 < e.height {
                        let r = respawn_prefix(b1, s.rng, prev0, e.height, b1.len() as int);
                        SimState { bodies: r.0, rng: r.1, prev_height: e.height, ..s }
                    } else {
                        let r = reclamp_prefix(b1, s.rng, e.height, b1.len() as int);
                        SimState { bodies: r.0, rng: r.1, prev_height: e.height, ..s }
                    }
                },
            }
        },
    }
}

/// Scan this frame's queue for the most recent event of viewport `id`.
pub fn find_last_resize(events: &Vec<ResizeEvent>, id: u64) -> (r: Option<ResizeEvent>)
    ensures
        r == last_resize(events@, id),
{
    let mut found: Option<ResizeEvent> = Option::None;
    let mut idx: usize = 0;
    while idx < events.len()
        invariant
            idx <= events@.len(),
            found == last_resize(events@.take(idx as int), id),
        decreases events@.len() - idx,
    {
        let e = events[idx];
        if e.window == id {
            found = Option::Some(e);
        }
        proof {
            let k = idx as int;
            assert(events@.take(k + 1).last() == events@[k]);
            assert(events@.take(k + 1).drop_last() =~= events@.take(k));
        }
        idx = idx + 1;
    }
    proof {
        assert(events@.take(events@.len() as int) =~= events@);
    }
    found
}

impl Simulation {
    /// Recompute every body's teleport boundary for viewport width `vw`.
    fn apply_retarget(&mut self, vw: i64)
        requires
            0 < vw <= DIM_MAX,
            forall|i: int| 0 <= i < old(self).rectangles@.len()
                ==> body_rest(#[trigger] old(self).rectangles@[i]),
        ensures
            final(self).rectangles@ == retarget_all(old(self).rectangles@, vw),
            forall|i: int| 0 <= i < final(self).rectangles@.len()
                ==> body_rest(#[trigger] final(self).rectangles@[i]),
            final(self).rng == old(self).rng,
            final(self).stats == old(self).stats,
            final(self).previous_viewport_height == old(self).previous_viewport_height,
            final(self).initialized == old(self).initialized,
    {
        let ghost b0 = self.rectangles@;
        let half = ((vw as u64) / 2) as i64;
        let mut i: usize = 0;
        while i < self.rectangles.len()
            invariant
                i <= self.rectangles@.len(),
                self.rectangles@.len() == b0.len(),
                0 < vw <= DIM_MAX,
                half == (vw as int) / 2,
                forall|j: int| 0 <= j < b0.len() ==> body_rest(#[trigger] b0[j]),
                forall|j: int| 0 <= j < i ==> self.rectangles@[j] == retargeted_body(b0[j], vw),
                forall|j: int| i <= j < b0.len() ==> self.rectangles@[j] == b0[j],
                forall|j: int| 0 <= j < b0.len()
                    ==> body_rest(#[trigger] self.rectangles@[j]),
                self.rng == old(self).rng,
                self.stats == old(self).stats,
                self.previous_viewport_height == old(self).previous_viewport_height,
                self.initialized == old(self).initialized,
            decreases self.rectangles@.len() - i,
        {
            let b = self.rectangles[i];
            let nb = RectangleObject { teleport_target: -half - b.width, ..b };
            self.rectangles[i] = nb;
            i = i + 1;
        }
        proof {
            assert(self.rectangles@ =~= retarget_all(b0, vw));
        }
    }

    /// The probabilistic respawn pass: the viewport grew from `prev` to `h`.
    fn apply_respawn(&mut self, prev: i64, h: i64)
        requires
            0 <= prev < h <= DIM_MAX,
            forall|i: int| 0 <= i < old(self).rectangles@.len()
                ==> body_rest(#[trigger] old(self).rectangles@[i]),
        ensures
            final(self).rectangles@ == respawn_prefix(
                old(self).rectangles@,
                old(self).rng,
                prev,
                h,
                old(self).rectangles@.len() as int,
            ).0,
            final(self).rng == respawn_prefix(
                old(self).rectangles@,
                old(self).rng,
                prev,
                h,
                old(self).rectangles@.len() as int,
            ).1,
            forall|i: int| 0 <= i < final(self).rectangles@.len()
                ==> body_rest(#[trigger] final(self).rectangles@[i]),
            final(self).rectangles@.len() == old(self).rectangles@.len(),
            final(self).stats == old(self).stats,
            final(self).previous_viewport_height == old(self).previous_viewport_height,
            final(self).initialized == old(self).initialized,
    {
        let ghost b1 = self.rectangles@;
        let ghost rng1 = self.rng;
        let mut i: usize = 0;
        while i < self.rectangles.len()
            invariant
                i <= self.rectangles@.len(),
                self.rectangles@.len() == b1.len(),
                0 <= prev < h <= DIM_MAX,
                forall|j: int| 0 <= j < b1.len() ==> body_rest(#[trigger] b1[j]),
                self.rectangles@.take(i as int) == respawn_prefix(b1, rng1, prev, h, i as int).0,
                self.rng == respawn_prefix(b1, rng1, prev, h, i as int).1,
                forall|j: int| i <= j < b1.len() ==> self.rectangles@[j] == b1[j],
                forall|j: int| 0 <= j < b1.len()
                    ==> body_rest(#[trigger] self.rectangles@[j]),
                self.stats == old(self).stats,
                self.previous_viewport_height == old(self).previous_viewport_height,
                self.initialized == old(self).initialized,
            decreases self.rectangles@.len() - i,
        {
            let b = self.rectangles[i];
            let nb = respawn_body(b, &mut self.rng, prev, h);
            self.rectangles[i] = nb;
            proof {
                let k = i as int;
                assert(self.rectangles@.take(k + 1) =~= respawn_prefix(
                    b1,
                    rng1,
                    prev,
                    h,
                    k + 1,
                ).0);
            }
            i = i + 1;
        }
        proof {
            assert(self.rectangles@.take(b1.len() as int) =~= self.rectangles@);
        }
    }

    /// The reclamp pass: the viewport did not grow; out-of-range bodies are
    /// pulled back into [-h/2, h/2).
    fn apply_reclamp(&mut self, h: i64)
        requires
            0 < h <= DIM_MAX,
            forall|i: int| 0 <= i < old(self).rectangles@.len()
                ==> body_rest(#[trigger] old(self).rectangles@[i]),
        ensures
            final(self).rectangles@ == reclamp_prefix(
                old(self).rectangles@,
                old(self).rng,
                h,
                old(self).rectangles@.len() as int,
            ).0,
            final(self).rng == reclamp_prefix(
                old(self).rectangles@,
                old(self).rng,
                h,
                old(self).rectangles@.len() as int,
            ).1,
            forall|i: int| 0 <= i < final(self).rectangles@.len()
                ==> body_rest(#[trigger] final(self).rectangles@[i]),
            final(self).rectangles@.len() == old(self).rectangles@.len(),
            final(self).stats == old(self).stats,
            final(self).previous_viewport_height == old(self).previous_viewport_height,
            final(self).initialized == old(self).initialized,
    {
        let ghost b1 = self.rectangles@;
        let ghost rng1 = self.rng;
        let mut i: usize = 0;
        while i < self.rectangles.len()
            invariant
                i <= self.rectangles@.len(),
                self.rectangles@.len() == b1.len(),
                0 < h <= DIM_MAX,
                forall|j: int| 0 <= j < b1.len() ==> body_rest(#[trigger] b1[j]),
                self.rectangles@.take(i as int) == reclamp_prefix(b1, rng1, h, i as int).0,
                self.rng == reclamp_prefix(b1, rng1, h, i as int).1,
                forall|j: int| i <= j < b1.len() ==> self.rectangles@[j] == b1[j],
                forall|j: int| 0 <= j < b1.len()
                    ==> body_rest(#[trigger] self.rectangles@[j]),
                self.stats == old(self).stats,
                self.previous_viewport_height == old(self).previous_viewport_height,
                self.initialized == old(self).initialized,
            decreases self.rectangles@.len() - i,
        {
            let b = self.rectangles[i];
            let nb = reclamp_body(b, &mut self.rng, h);
            self.rectangles[i] = nb;
            proof {
                let k = i as int;
                assert(self.rectangles@.take(k + 1) =~= reclamp_prefix(b1, rng1, h, k + 1).0);
            }
            i = i + 1;
        }
        proof {
            assert(self.rectangles@.take(b1.len() as int) =~= self.rectangles@);
        }
    }

    /// The resize reactor step of each frame.
    pub fn bounds_updater(&mut self, resize_events: &Vec<ResizeEvent>, viewport: Option<Viewport>)
        requires
            old(self).wf(),
            vp_ok(viewport),
            forall|i: int| 0 <= i < resize_events@.len()
                ==> (#[trigger] resize_events@[i]).wf(),
        ensures
            final(self)@ == bounds_spec(old(self)@, resize_events@, viewport),
            final(self).wf(),
            final(self).stats == old(self).stats,
            final(self).initialized == old(self).initialized,
    {
        let v = match viewport {
            Option::Some(v) => v,
            Option::None => {
                return;
            },
        };
        if self.previous_viewport_height == 0 {
            self.previous_viewport_height = v.height;
        }
        let found = find_last_resize(resize_events, v.id);
        let e = match found {
            Option::Some(e) => e,
            Option::None => {
                proof {
                    assert(self@ =~= bounds_spec(old(self)@, resize_events@, viewport));
                }
                return;
            },
        };
        proof {
            lemma_last_resize_wf(resize_events@, v.id);
        }
        let prev0 = self.previous_viewport_height;
        self.apply_retarget(e.width);
        if prev0 < e.height {
            self.apply_respawn(prev0, e.height);
        } else {
            self.apply_reclamp(e.height);
        }
        self.previous_viewport_height = e.height;
        proof {
            assert(self@ =~= bounds_spec(old(self)@, resize_events@, viewport));
        }
    }
}

/// The event the reactor consumes is one of this frame's queued events, so
/// its dimensions are within the core's bounds whenever the queue's are.
pub proof fn lemma_last_resize_wf(events: Seq<ResizeEvent>, id: u64)
    requires
        forall|i: int| 0 <= i < events.len() ==> (#[trigger] events[i]).wf(),
    ensures
        match last_resize(events, id) {
            Option::Some(e) => e.wf(),
            Option::None => true,
        },
    decreases events.len(),
{
    if events.len() > 0 && events.last().window != id {
        lemma_last_resize_wf(events.drop_last(), id);
    }
}

} // verus!
