//! Population lifecycle: initial setup, the growth and shrink laws, the
//! count invariant, and the missing-viewport no-op policy.
use rectangles::frame::FrameInput;
use rectangles::sim::Simulation;
use rectangles::{Viewport, FP, VEL_MAX, VEL_MIN, WIDTH_MAX, WIDTH_MIN};

fn vp() -> Option<Viewport> {
    Some(Viewport { id: 1, width: 1000 * FP, height: 765 * FP })
}

fn quiet_frame(viewport: Option<Viewport>) -> FrameInput {
    FrameInput { elapsed: FP / 60, grow: false, shrink: false, resizes: vec![], viewport }
}

fn signal_frame(grow: bool, shrink: bool, viewport: Option<Viewport>) -> FrameInput {
    FrameInput { elapsed: FP / 60, grow, shrink, resizes: vec![], viewport }
}

#[test]
fn setup_spawns_initial_population() {
    let mut sim = Simulation::new();
    assert_eq!(sim.stats.count, 250);
    assert_eq!(sim.live_count(), 0);
    sim.frame(&quiet_frame(vp()));
    assert_eq!(sim.stats.count, 250);
    assert_eq!(sim.live_count(), 250);
}

#[test]
fn growth_law_doubles_and_keeps_existing() {
    let mut sim = Simulation::new();
    sim.frame(&quiet_frame(vp()));
    let before: Vec<_> = sim.rectangles.clone();
    sim.frame(&signal_frame(true, false, vp()));
    assert_eq!(sim.stats.count, 500);
    assert_eq!(sim.live_count(), 500);
    // The 250 existing bodies were untouched by the spawn itself; movement
    // then advanced every x. Identity-carrying fields must be unchanged.
    for (old, new) in before.iter().zip(sim.rectangles.iter().take(250)) {
        assert_eq!(old.velocity, new.velocity);
        assert_eq!(old.width, new.width);
        assert_eq!(old.z, new.z);
    }
}

#[test]
fn shrink_law_halves_and_removes_exactly() {
    let mut sim = Simulation::new();
    sim.frame(&quiet_frame(vp()));
    sim.frame(&signal_frame(true, false, vp()));
    assert_eq!(sim.stats.count, 500);
    let before: Vec<_> = sim.rectangles.clone();
    sim.frame(&signal_frame(false, true, vp()));
    assert_eq!(sim.stats.count, 250);
    assert_eq!(sim.live_count(), 250);
    // Survivors are the unchanged prefix (identity fields).
    for (old, new) in before.iter().zip(sim.rectangles.iter()) {
        assert_eq!(old.velocity, new.velocity);
        assert_eq!(old.width, new.width);
        assert_eq!(old.z, new.z);
    }
}

#[test]
fn shrink_at_one_reaches_zero() {
    // The floor of one applies only to growth; halving 1 gives 0, and the
    // one remaining body is despawned with it.
    let mut sim = Simulation::new();
    sim.stats.count = 1;
    sim.frame(&quiet_frame(vp()));
    assert_eq!(sim.live_count(), 1);
    sim.frame(&signal_frame(false, true, vp()));
    assert_eq!(sim.stats.count, 0);
    assert_eq!(sim.live_count(), 0);
    // Growing back from zero re-establishes the floor of one.
    sim.frame(&signal_frame(true, false, vp()));
    assert_eq!(sim.stats.count, 1);
    assert_eq!(sim.live_count(), 1);
}

#[test]
fn both_signals_same_frame_keep_count_invariant() {
    let mut sim = Simulation::new();
    sim.frame(&quiet_frame(vp()));
    sim.frame(&signal_frame(true, true, vp()));
    // Grow doubles to 500 and spawns 250; shrink then halves 500 to 250 and
    // despawns 250. The invariant holds at the end of the frame.
    assert_eq!(sim.stats.count, 250);
    assert_eq!(sim.live_count(), 250);
}

#[test]
fn count_invariant_over_random_walk() {
    let mut sim = Simulation::new();
    sim.frame(&quiet_frame(vp()));
    let steps = [
        (true, false),
        (true, false),
        (false, true),
        (true, true),
        (false, true),
        (true, false),
    ];
    for (grow, shrink) in steps {
        sim.frame(&signal_frame(grow, shrink, vp()));
        assert_eq!(sim.live_count(), sim.stats.count as usize);
    }
}

#[test]
fn no_viewport_skips_everything() {
    let mut sim = Simulation::new();
    sim.frame(&signal_frame(true, false, None));
    assert_eq!(sim.stats.count, 250);
    assert_eq!(sim.live_count(), 0);
}

#[test]
fn setup_retries_once_viewport_appears() {
    let mut sim = Simulation::new();
    sim.frame(&quiet_frame(None));
    assert_eq!(sim.live_count(), 0);
    sim.frame(&quiet_frame(vp()));
    assert_eq!(sim.live_count(), 250);
}

#[test]
fn attribute_bounds_hold_for_large_population() {
    let mut sim = Simulation::new();
    sim.stats.count = 2000;
    sim.frame(&quiet_frame(vp()));
    assert_eq!(sim.live_count(), 2000);
    for b in sim.rectangles.iter() {
        assert!((VEL_MIN..VEL_MAX).contains(&b.velocity));
        assert!((WIDTH_MIN..WIDTH_MAX).contains(&b.width));
        assert_eq!(b.teleport_target, -(1000 * FP / 2) - b.width);
    }
}

#[test]
fn first_body_attributes_for_default_seed() {
    // Exact expected values for the fixed seed on a 1000 x 765 viewport,
    // derived independently from the xoshiro256++ reference stream and the
    // documented fixed-point formulas.
    let mut sim = Simulation::new();
    sim.frame(&quiet_frame(vp()));
    let b = sim.rectangles[0];
    assert_eq!(b.width, 2_478_470);
    assert_eq!(b.velocity, 4_019_017);
    assert_eq!(b.teleport_target, -35_246_470);
    assert_eq!(b.y, 11_043_713);
    assert_eq!(b.z, 15_309);
    // x has already moved one frame: spawn position minus velocity * elapsed.
    let step = b.velocity * (FP / 60) / FP;
    assert_eq!(b.x, 21_244_250 - step);
}
