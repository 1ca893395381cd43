//! Movement, wrap, and whole-run determinism.
use rectangles::body::RectangleObject;
use rectangles::frame::FrameInput;
use rectangles::sim::Simulation;
use rectangles::{ResizeEvent, Viewport, FP};

fn vp(w: i64, h: i64) -> Option<Viewport> {
    Some(Viewport { id: 1, width: w, height: h })
}

fn one_body_sim(b: RectangleObject) -> Simulation {
    let mut sim = Simulation::new();
    sim.rectangles.push(b);
    sim.stats.count = 1;
    sim.initialized = true;
    sim.previous_viewport_height = 765 * FP;
    sim
}

fn plain_frame(elapsed: i64, viewport: Option<Viewport>) -> FrameInput {
    FrameInput { elapsed, grow: false, shrink: false, resizes: vec![], viewport }
}

#[test]
fn movement_is_exact_fixed_point() {
    let b = RectangleObject {
        velocity: 100 * FP,
        width: 20 * FP,
        teleport_target: -(520 * FP),
        x: 300 * FP,
        y: 0,
        z: 0,
    };
    let mut sim = one_body_sim(b);
    // A quarter of a second at 100 px/s moves exactly 25 px left.
    sim.frame(&plain_frame(FP / 4, vp(1000 * FP, 765 * FP)));
    assert_eq!(sim.rectangles[0].x, 300 * FP - 25 * FP);
}

#[test]
fn movement_with_zero_elapsed_is_identity() {
    let b = RectangleObject {
        velocity: 100 * FP,
        width: 20 * FP,
        teleport_target: -(520 * FP),
        x: 300 * FP,
        y: 7,
        z: 9,
    };
    let mut sim = one_body_sim(b);
    sim.frame(&plain_frame(0, vp(1000 * FP, 765 * FP)));
    assert_eq!(sim.rectangles[0], b);
}

#[test]
fn wrap_reflects_about_origin() {
    // x sits one fixed-point unit (2^-16 px) past the boundary; after a
    // zero-elapsed frame it is exactly negated.
    let tt = -(520 * FP);
    let b = RectangleObject {
        velocity: 60 * FP,
        width: 20 * FP,
        teleport_target: tt,
        x: tt - 1,
        y: 0,
        z: 0,
    };
    let mut sim = one_body_sim(b);
    sim.frame(&plain_frame(0, vp(1000 * FP, 765 * FP)));
    assert_eq!(sim.rectangles[0].x, -(tt - 1));
}

#[test]
fn wrap_leaves_body_on_boundary_alone() {
    let tt = -(520 * FP);
    let b = RectangleObject {
        velocity: 60 * FP,
        width: 20 * FP,
        teleport_target: tt,
        x: tt,
        y: 0,
        z: 0,
    };
    let mut sim = one_body_sim(b);
    sim.frame(&plain_frame(0, vp(1000 * FP, 765 * FP)));
    assert_eq!(sim.rectangles[0].x, tt);
}

#[test]
fn identical_runs_are_bit_identical() {
    let script = |sim: &mut Simulation| {
        sim.frame(&plain_frame(FP / 60, vp(1000 * FP, 765 * FP)));
        sim.frame(&FrameInput {
            elapsed: FP / 30,
            grow: true,
            shrink: false,
            resizes: vec![],
            viewport: vp(1000 * FP, 765 * FP),
        });
        sim.frame(&FrameInput {
            elapsed: FP / 60,
            grow: false,
            shrink: false,
            resizes: vec![ResizeEvent { window: 1, width: 900 * FP, height: 1000 * FP }],
            viewport: vp(900 * FP, 1000 * FP),
        });
        sim.frame(&FrameInput {
            elapsed: FP / 45,
            grow: false,
            shrink: true,
            resizes: vec![],
            viewport: vp(900 * FP, 1000 * FP),
        });
    };
    let mut a = Simulation::new();
    let mut b = Simulation::new();
    script(&mut a);
    script(&mut b);
    assert_eq!(a.stats.count, b.stats.count);
    assert_eq!(a.rng, b.rng);
    assert_eq!(a.previous_viewport_height, b.previous_viewport_height);
    assert_eq!(a.rectangles.len(), b.rectangles.len());
    for (x, y) in a.rectangles.iter().zip(b.rectangles.iter()) {
        assert_eq!(x, y);
    }
}

#[test]
fn movement_advances_all_bodies_by_their_own_velocity() {
    let mut sim = Simulation::new();
    sim.frame(&plain_frame(0, vp(1000 * FP, 765 * FP)));
    let before: Vec<_> = sim.rectangles.clone();
    sim.frame(&plain_frame(FP, vp(1000 * FP, 765 * FP)));
    for (old, new) in before.iter().zip(sim.rectangles.iter()) {
        let expected = old.x - old.velocity;
        let wrapped = if expected < old.teleport_target { -expected } else { expected };
        assert_eq!(new.x, wrapped);
    }
}
