//! The resize reactor: last-write-wins event consumption, the exact teleport
//! boundary recompute, the probabilistic respawn when the viewport grows, and
//! the reclamp when it shrinks.
use rectangles::frame::FrameInput;
use rectangles::sim::Simulation;
use rectangles::{ResizeEvent, Viewport, FP};

const PRIMARY: u64 = 1;

fn vp(w: i64, h: i64) -> Option<Viewport> {
    Some(Viewport { id: PRIMARY, width: w, height: h })
}

fn frame_with(resizes: Vec<ResizeEvent>, viewport: Option<Viewport>) -> FrameInput {
    FrameInput { elapsed: 0, grow: false, shrink: false, resizes, viewport }
}

#[test]
fn resize_recomputes_every_teleport_target() {
    let mut sim = Simulation::new();
    sim.frame(&frame_with(vec![], vp(1000 * FP, 765 * FP)));
    let event = ResizeEvent { window: PRIMARY, width: 800 * FP, height: 765 * FP };
    sim.frame(&frame_with(vec![event], vp(800 * FP, 765 * FP)));
    assert_eq!(sim.live_count(), 250);
    for b in sim.rectangles.iter() {
        assert_eq!(b.teleport_target, -(400 * FP) - b.width);
    }
}

#[test]
fn events_for_other_viewports_are_ignored() {
    let mut sim = Simulation::new();
    sim.frame(&frame_with(vec![], vp(1000 * FP, 765 * FP)));
    let before: Vec<_> = sim.rectangles.clone();
    let stranger = ResizeEvent { window: 9, width: 100 * FP, height: 100 * FP };
    sim.frame(&frame_with(vec![stranger], vp(1000 * FP, 765 * FP)));
    for (old, new) in before.iter().zip(sim.rectangles.iter()) {
        assert_eq!(old.teleport_target, new.teleport_target);
        assert_eq!(old.y, new.y);
    }
}

#[test]
fn only_the_most_recent_primary_event_counts() {
    let mut sim = Simulation::new();
    sim.frame(&frame_with(vec![], vp(1000 * FP, 765 * FP)));
    let events = vec![
        ResizeEvent { window: PRIMARY, width: 640 * FP, height: 765 * FP },
        ResizeEvent { window: 9, width: 100 * FP, height: 100 * FP },
        ResizeEvent { window: PRIMARY, width: 800 * FP, height: 765 * FP },
        ResizeEvent { window: 9, width: 50 * FP, height: 50 * FP },
    ];
    sim.frame(&frame_with(events, vp(800 * FP, 765 * FP)));
    for b in sim.rectangles.iter() {
        assert_eq!(b.teleport_target, -(400 * FP) - b.width);
    }
}

#[test]
fn no_resize_event_means_no_recompute() {
    let mut sim = Simulation::new();
    sim.frame(&frame_with(vec![], vp(1000 * FP, 765 * FP)));
    let before: Vec<_> = sim.rectangles.clone();
    sim.frame(&frame_with(vec![], vp(1000 * FP, 765 * FP)));
    for (old, new) in before.iter().zip(sim.rectangles.iter()) {
        assert_eq!(old.teleport_target, new.teleport_target);
        assert_eq!(old.y, new.y);
    }
}

#[test]
fn respawn_fraction_converges_to_probability() {
    // Height grows 765 -> 1000: respawn probability 1 - 765/1000 = 0.235.
    let mut sim = Simulation::new();
    sim.stats.count = 10_000;
    sim.frame(&frame_with(vec![], vp(1000 * FP, 765 * FP)));
    let before: Vec<_> = sim.rectangles.clone();
    let event = ResizeEvent { window: PRIMARY, width: 1000 * FP, height: 1000 * FP };
    sim.frame(&frame_with(vec![event], vp(1000 * FP, 1000 * FP)));
    let mut changed: usize = 0;
    let band_lo = 765 * FP / 2;
    let band_hi = 500 * FP;
    for (old, new) in before.iter().zip(sim.rectangles.iter()) {
        if old.y != new.y {
            changed += 1;
            let mag = new.y.abs();
            assert!(mag >= band_lo, "respawned y {} below band", new.y);
            assert!(mag < band_hi, "respawned y {} above band", new.y);
        }
    }
    let fraction = changed as f64 / 10_000.0;
    assert!(
        (0.215..0.255).contains(&fraction),
        "respawn fraction {} strays from 0.235",
        fraction
    );
}

#[test]
fn reclamp_pulls_outliers_back_in_range() {
    let mut sim = Simulation::new();
    sim.stats.count = 1000;
    sim.frame(&frame_with(vec![], vp(1000 * FP, 1000 * FP)));
    let before: Vec<_> = sim.rectangles.clone();
    let event = ResizeEvent { window: PRIMARY, width: 1000 * FP, height: 500 * FP };
    sim.frame(&frame_with(vec![event], vp(1000 * FP, 500 * FP)));
    let bound = 250 * FP;
    for (old, new) in before.iter().zip(sim.rectangles.iter()) {
        assert!(new.y >= -bound && new.y <= bound);
        if old.y >= -bound && old.y <= bound {
            assert_eq!(old.y, new.y, "an in-range body was disturbed");
        }
    }
}

#[test]
fn first_frame_initializes_height_memory() {
    // A resize event arriving in the very first frame with a viewport uses
    // the just-observed height as the previous height.
    let mut sim = Simulation::new();
    let event = ResizeEvent { window: PRIMARY, width: 1000 * FP, height: 765 * FP };
    sim.frame(&frame_with(vec![event], vp(1000 * FP, 765 * FP)));
    assert_eq!(sim.previous_viewport_height, 765 * FP);
    // Same height: no growth, so no vertical resample band; all bodies stay
    // within [-h/2, h/2].
    for b in sim.rectangles.iter() {
        assert!(b.y.abs() <= 765 * FP / 2);
    }
}
