//! One frame of the control loop, in the fixed order: initial setup, the
//! grow/shrink controller, the resize reactor, movement, wrap. The frame
//! transition is a pure function of the state and the frame's inputs, which
//! is what makes the benchmark reproducible.
use crate::motion::{move_all, wrap_all};
use crate::resize::bounds_spec;
use crate::sim::{mouse_spec, setup_spec, SimState, Simulation};
use crate::{vp_ok, ResizeEvent, Viewport, DT_MAX};
use vstd::prelude::*;

verus! {

/// Everything one frame consumes from the host: the elapsed time, the two
/// edge-triggered signals, this frame's queued resize events, and the current
/// viewport if one exists.
pub struct FrameInput {
    pub elapsed: i64,
    pub grow: bool,
    pub shrink: bool,
    pub resizes: Vec<ResizeEvent>,
    pub viewport: Option<Viewport>,
}

/// The mathematical content of a frame's inputs.
#[verifier::ext_equal]
pub struct FrameInputGhost {
    pub elapsed: i64,
    pub grow: bool,
    pub shrink: bool,
    pub resizes: Seq<ResizeEvent>,
    pub viewport: Option<Viewport>,
}

impl View for FrameInput {
    type V = FrameInputGhost;

    open spec fn view(&self) -> FrameInputGhost {
        FrameInputGhost {
            elapsed: self.elapsed,
            grow: self.grow,
            shrink: self.shrink,
            resizes: self.resizes@,
            viewport: self.viewport,
        }
    }
}

/// Frame inputs the core accepts.
pub open spec fn input_ok(inp: FrameInputGhost) -> bool {
    &&& 0 <= inp.elapsed <= DT_MAX
    &&& vp_ok(inp.viewport)
    &&& forall|i: int| 0 <= i < inp.resizes.len() ==> (#[trigger] inp.resizes[i]).wf()
}

/// The state after the movement step.
pub open spec fn move_state(s: SimState, dt: i64) -> SimState {
    SimState { bodies: move_all(s.bodies, dt), ..s }
}

/// The state after the wrap step.
pub open spec fn wrap_state(s: SimState) -> SimState {
    SimState { bodies: wrap_all(s.bodies), ..s }
}

/// The state after one whole frame, in the fixed step order.
pub open spec fn frame_spec(s: SimState, inp: FrameInputGhost) -> SimState {
    let s1 = setup_spec(s, inp.viewport);
    let s2 = mouse_spec(s1, inp.grow, inp.shrink, inp.viewport);
    let s3 = bounds_spec(s2, inp.resizes, inp.viewport);
    let s4 = move_state(s3, inp.elapsed);
    wrap_state(s4)
}

/// The state after a whole sequence of frames.
pub open spec fn run_spec(s: SimState, inputs: Seq<FrameInputGhost>) -> SimState
    decreases inputs.len(),
{
    if inputs.len() == 0 {
        s
    } else {
        run_spec(frame_spec(s, inputs[0]), inputs.subrange(1, inputs.len() as int))
    }
}

/// Determinism: from equal states, equal ordered input sequences (elapsed
/// times, resize events, button signals) end in equal states — every body's
/// attributes and positions included. The frame transition is a function of
/// the seed-derived state and the inputs alone.
pub proof fn lemma_run_deterministic(
    s1: SimState,
    s2: SimState,
    in1: Seq<FrameInputGhost>,
    in2: Seq<FrameInputGhost>,
)
    requires
        s1 == s2,
        in1 == in2,
    ensures
        run_spec(s1, in1) == run_spec(s2, in2),
{
}

impl Simulation {
    /// Run one frame. The target count must be small enough to double when a
    /// grow signal arrives with a viewport present.
    pub fn frame(&mut self, input: &FrameInput)
        requires
            old(self).wf(),
            input_ok(input@),
            input@.grow && input@.viewport.is_some() ==> old(self).stats.count <= 0x7fff_ffff,
        ensures
            final(self)@ == frame_spec(old(self)@, input@),
            final(self).wf(),
    {
        self.setup(input.viewport);
        self.mouse_handler(input.grow, input.shrink, input.viewport);
        proof {
            assert(forall|i: int| 0 <= i < input.resizes@.len()
                ==> (#[trigger] input.resizes@[i]).wf()) by {
                assert(input.resizes@ == input@.resizes);
            }
        }
        self.bounds_updater(&input.resizes, input.viewport);
        self.movement(input.elapsed);
        self.collision_detection();
        proof {
            assert(self@ =~= frame_spec(old(self)@, input@));
        }
    }

    /// The live body count the core exposes for the on-screen counter.
    pub fn live_count(&self) -> (c: usize)
        ensures
            c == self@.bodies.len(),
    {
        self.rectangles.len()
    }
}

} // verus!
