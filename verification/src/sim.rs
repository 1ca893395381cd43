//! The population store: the live set of bodies, the authoritative target
//! count, the shared generator and the resize history, together with the
//! lifecycle operations (initial setup, spawn, despawn, and the edge-triggered
//! grow/shrink controller).
use crate::body::{body_rest, spawn_body, spawn_one, RectangleObject};
use crate::rng::{seed_state, PseudoRng, DEFAULT_SEED};
use crate::{dims_ok, vp_ok, Viewport, DIM_MAX};
use vstd::prelude::*;

verus! {

/// The authoritative target population count.
#[derive(Clone, Copy, PartialEq, Eq, Structural, Debug)]
pub struct Stats {
    pub count: u32,
}

impl Default for Stats {
    /// The benchmark starts with a target of 250 bodies.
    fn default() -> (s: Stats)
        ensures
            s.count == 250,
    {
        Stats { count: 250 }
    }
}

/// The mathematical state of the simulation: what every contract speaks of.
#[verifier::ext_equal]
pub struct SimState {
    pub bodies: Seq<RectangleObject>,
    pub count: u32,
    pub rng: PseudoRng,
    pub prev_height: i64,
    pub initialized: bool,
}

/// The simulation core: the body set, the target count, the single seeded
/// generator, and the resize reactor's height memory.
pub struct Simulation {
    pub rectangles: Vec<RectangleObject>,
    pub stats: Stats,
    pub rng: PseudoRng,
    pub previous_viewport_height: i64,
    pub initialized: bool,
}

impl View for Simulation {
    type V = SimState;

    open spec fn view(&self) -> SimState {
        SimState {
            bodies: self.rectangles@,
            count: self.stats.count,
            rng: self.rng,
            prev_height: self.previous_viewport_height,
            initialized: self.initialized,
        }
    }
}

/// Between frames every body is within its lifetime bounds, the resize
/// history holds a height the core accepts, and once the initial population
/// has been spawned the live count equals the target count.
pub open spec fn state_wf(s: SimState) -> bool {
    &&& forall|i: int| 0 <= i < s.bodies.len() ==> body_rest(#[trigger] s.bodies[i])
    &&& 0 <= s.prev_height <= DIM_MAX
    &&& if s.initialized {
        s.bodies.len() == s.count
    } else {
        s.bodies.len() == 0
    }
}

/// The sequence of bodies spawned by `n` successive five-draw groups, with
/// the generator state after them; body 0 is drawn first.
pub open spec fn spawn_seq(rng: PseudoRng, n: nat, vw: i64, vh: i64) -> (
    Seq<RectangleObject>,
    PseudoRng,
)
    decreases n,
{
    if n == 0 {
        (Seq::empty(), rng)
    } else {
        let prev = spawn_seq(rng, (n - 1) as nat, vw, vh);
        let one = spawn_one(prev.1, vw, vh);
        (prev.0.push(one.0), one.1)
    }
}

/// Spawning `n` bodies yields exactly `n` bodies.
pub proof fn lemma_spawn_seq_len(rng: PseudoRng, n: nat, vw: i64, vh: i64)
    ensures
        spawn_seq(rng, n, vw, vh).0.len() == n,
    decreases n,
{
    if n > 0 {
        lemma_spawn_seq_len(rng, (n - 1) as nat, vw, vh);
    }
}

/// Every body spawned within the core's viewport bounds is within its
/// lifetime bounds.
pub proof fn lemma_spawn_seq_rest(rng: PseudoRng, n: nat, vw: i64, vh: i64)
    requires
        dims_ok(vw, vh),
    ensures
        forall|i: int| 0 <= i < spawn_seq(rng, n, vw, vh).0.len()
            ==> body_rest(#[trigger] spawn_seq(rng, n, vw, vh).0[i]),
    decreases n,
{
    if n > 0 {
        lemma_spawn_seq_rest(rng, (n - 1) as nat, vw, vh);
        crate::body::lemma_spawn_one_rest(spawn_seq(rng, (n - 1) as nat, vw, vh).1, vw, vh);
    }
}

/// The target count after a grow signal: doubled, with a floor of one.
pub open spec fn grow_target(c: u32) -> u32 {
    if c == 0 {
        1
    } else {
        (2 * c) as u32
    }
}

/// The state after the initial setup step: on the first frame that has a
/// viewport, the initial target population is spawned; with no viewport the
/// step is skipped and tried again next frame.
pub open spec fn setup_spec(s: SimState, vp: Option<Viewport>) -> SimState {
    match vp {
        Option::Some(v) => if !s.initialized {
            let sp = spawn_seq(s.rng, s.count as nat, v.width, v.height);
            SimState { bodies: s.bodies + sp.0, rng: sp.1, initialized: true, ..s }
        } else {
            s
        },
        Option::None => s,
    }
}

/// The state after the grow/shrink controller has consumed this frame's
/// edge-triggered signals. Each signal is checked independently: grow doubles
/// the target (floor one) and spawns the difference; shrink halves it
/// (integer division) and despawns the difference. With no viewport both
/// signals are skipped.
pub open spec fn mouse_spec(s: SimState, grow: bool, shrink: bool, vp: Option<Viewport>) -> SimState {
    match vp {
        Option::None => s,
        Option::Some(v) => {
            let s1 = if grow {
                let c1 = grow_target(s.count);
                let sp = spawn_seq(s.rng, (c1 - s.count) as nat, v.width, v.height);
                SimState { count: c1, bodies: s.bodies + sp.0, rng: sp.1, ..s }
            } else {
                s
            };
            if shrink {
                let c2 = s1.count / 2;
                let removed = (s1.count - c2) as int;
                SimState {
                    count: c2,
                    bodies: s1.bodies.take(s1.bodies.len() - removed),
                    ..s1
                }
            } else {
                s1
            }
        },
    }
}

impl Simulation {
    /// Between-frame well-formedness of the whole core.
    pub open spec fn wf(&self) -> bool {
        state_wf(self@)
    }

    /// A fresh simulation: no bodies yet, target 250, the generator seeded
    /// from the fixed constant, no resize history.
    pub fn new() -> (s: Simulation)
        ensures
            s@.bodies.len() == 0,
            s@.count == 250,
            s@.rng == seed_state(DEFAULT_SEED),
            s@.prev_height == 0,
            !s@.initialized,
            s.wf(),
    {
        Simulation {
            rectangles: Vec::new(),
            stats: Stats::default(),
            rng: PseudoRng::default(),
            previous_viewport_height: 0,
            initialized: false,
        }
    }

    /// Create exactly `num` new bodies from the shared generator, appended to
    /// the live set; nothing else changes.
    pub fn spawn_rectangles(&mut self, num: u32, vw: i64, vh: i64)
        requires
            dims_ok(vw, vh),
        ensures
            final(self).rectangles@ == old(self).rectangles@
                + spawn_seq(old(self).rng, num as nat, vw, vh).0,
            final(self).rng == spawn_seq(old(self).rng, num as nat, vw, vh).1,
            final(self).stats == old(self).stats,
            final(self).previous_viewport_height == old(self).previous_viewport_height,
            final(self).initialized == old(self).initialized,
    {
        let ghost rng0 = self.rng;
        let ghost bodies0 = self.rectangles@;
        let mut i: u32 = 0;
        while i < num
            invariant
                i <= num,
                dims_ok(vw, vh),
                self.rectangles@ == bodies0 + spawn_seq(rng0, i as nat, vw, vh).0,
                self.rng == spawn_seq(rng0, i as nat, vw, vh).1,
                self.stats == old(self).stats,
                self.previous_viewport_height == old(self).previous_viewport_height,
                self.initialized == old(self).initialized,
            decreases num - i,
        {
            let ghost k = i as nat;
            let b = spawn_body(&mut self.rng, vw, vh);
            self.rectangles.push(b);
            proof {
                let target = spawn_seq(rng0, k + 1, vw, vh);
                assert(target.0 == spawn_seq(rng0, k, vw, vh).0.push(b));
                assert(self.rectangles@ =~= bodies0 + target.0);
            }
            i = i + 1;
        }
    }

    /// Remove exactly `num` bodies, taken from the end of the live set; the
    /// caller must have clamped `num` to the current population.
    pub fn despawn_rectangles(&mut self, num: u32)
        requires
            num as int <= old(self).rectangles@.len(),
        ensures
            final(self).rectangles@ == old(self).rectangles@.take(
                old(self).rectangles@.len() - num,
            ),
            final(self).rng == old(self).rng,
            final(self).stats == old(self).stats,
            final(self).previous_viewport_height == old(self).previous_viewport_height,
            final(self).initialized == old(self).initialized,
    {
        let new_len = self.rectangles.len() - num as usize;
        self.rectangles.truncate(new_len);
        proof {
            assert(self.rectangles@ =~= old(self).rectangles@.take(
                old(self).rectangles@.len() - num,
            ));
        }
    }

    /// The initial setup step of each frame: spawn the initial target
    /// population on the first frame that has a viewport.
    pub fn setup(&mut self, viewport: Option<Viewport>)
        requires
            old(self).wf(),
            vp_ok(viewport),
        ensures
            final(self)@ == setup_spec(old(self)@, viewport),
            final(self).wf(),
            final(self).initialized == (old(self).initialized || viewport.is_some()),
    {
        match viewport {
            Option::Some(v) => {
                if !self.initialized {
                    let n = self.stats.count;
                    self.spawn_rectangles(n, v.width, v.height);
                    self.initialized = true;
                    proof {
                        lemma_spawn_seq_len(old(self).rng, n as nat, v.width, v.height);
                        lemma_spawn_seq_rest(old(self).rng, n as nat, v.width, v.height);
                        assert(self@ =~= setup_spec(old(self)@, viewport));
                    }
                }
            },
            Option::None => {},
        }
    }

    /// The grow/shrink controller: consume the two edge-triggered signals for
    /// this frame. Requires the initial population to be in place whenever a
    /// signal arrives with a viewport present, and a target small enough to
    /// double without overflow.
    pub fn mouse_handler(&mut self, grow: bool, shrink: bool, viewport: Option<Viewport>)
        requires
            old(self).wf(),
            vp_ok(viewport),
            viewport.is_some() && (grow || shrink) ==> old(self).initialized,
            viewport.is_some() && grow ==> old(self).stats.count <= 0x7fff_ffff,
        ensures
            final(self)@ == mouse_spec(old(self)@, grow, shrink, viewport),
            final(self).wf(),
            final(self).initialized == old(self).initialized,
    {
        match viewport {
            Option::None => {},
            Option::Some(v) => {
                if grow {
                    let old_count = self.stats.count;
                    let c1 = if old_count == 0 {
                        1
                    } else {
                        old_count * 2
                    };
                    self.stats.count = c1;
                    self.spawn_rectangles(c1 - old_count, v.width, v.height);
                    proof {
                        lemma_spawn_seq_len(
                            old(self).rng,
                            (c1 - old_count) as nat,
                            v.width,
                            v.height,
                        );
                        lemma_spawn_seq_rest(
                            old(self).rng,
                            (c1 - old_count) as nat,
                            v.width,
                            v.height,
                        );
                    }
                }
                if shrink {
                    let old_count = self.stats.count;
                    let c2 = old_count / 2;
                    self.stats.count = c2;
                    self.despawn_rectangles(old_count - c2);
                }
            },
        }
        proof {
            assert(self@ =~= mouse_spec(old(self)@, grow, shrink, viewport));
        }
    }
}

impl Default for Simulation {
    /// A fresh simulation, as `new`.
    fn default() -> (s: Simulation)
        ensures
            s@.bodies.len() == 0,
            s@.count == 250,
            s@.rng == seed_state(DEFAULT_SEED),
            s@.prev_height == 0,
            !s@.initialized,
            s.wf(),
    {
        Simulation::new()
    }
}

} // verus!
