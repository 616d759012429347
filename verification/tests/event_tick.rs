use joint_scenario::event::{
    scenario_scheduler, EventScheduler, LatchState, TickOutcome, SCENARIO_IMPULSE_X_MILLI,
    TRIGGER_TIME_MILLI,
};
use joint_scenario::scene::{build_scene, BodyKind, Handle, World};
use joint_scenario::vec3::Vec3;

#[test]
fn armed_below_or_at_threshold_stays_armed() {
    let mut w = World::new(0);
    let h = build_scene(&mut w).unwrap();
    let mut sched = scenario_scheduler(h.dynamic);
    assert_eq!(sched.state, LatchState::Armed);

    // The threshold is strict: exactly three seconds does not fire.
    for t in [0, 1500, 2999, TRIGGER_TIME_MILLI] {
        assert_eq!(sched.on_tick(t, &mut w), TickOutcome::Idle);
        assert_eq!(sched.state, LatchState::Armed);
    }
    assert_eq!(
        w.get_body(h.dynamic).unwrap().linvel,
        Vec3 { x: 100_000, y: 0, z: 100_000 }
    );
}

#[test]
fn first_tick_past_threshold_applies_the_impulse_once() {
    let mut w = World::new(0);
    let h = build_scene(&mut w).unwrap();
    let mut sched = scenario_scheduler(h.dynamic);

    let before = *w.get_body(h.dynamic).unwrap();
    assert_eq!(sched.on_tick(3001, &mut w), TickOutcome::Applied);
    assert_eq!(sched.state, LatchState::Fired);

    let after = *w.get_body(h.dynamic).unwrap();
    // Exactly impulse_x / mass: 5.0 thousandths-units over unit mass, in
    // millionths of a velocity unit.
    assert_eq!(
        after.linvel.x,
        before.linvel.x + SCENARIO_IMPULSE_X_MILLI * before.inv_mass_milli
    );
    assert_eq!(after.linvel.y, before.linvel.y);
    assert_eq!(after.linvel.z, before.linvel.z);

    // Later ticks never re-apply, whatever the time does, even backwards.
    let frozen = *w.get_body(h.dynamic).unwrap();
    for t in [3002, 10_000, 0, -500, i64::MAX] {
        assert_eq!(sched.on_tick(t, &mut w), TickOutcome::Idle);
        assert_eq!(sched.state, LatchState::Fired);
        assert_eq!(*w.get_body(h.dynamic).unwrap(), frozen);
    }
}

#[test]
fn decreasing_times_still_fire_at_most_once() {
    let mut w = World::new(0);
    let h = build_scene(&mut w).unwrap();
    let mut sched = scenario_scheduler(h.dynamic);

    let mut applied: u32 = 0;
    for t in [4000, 100, 5000, 4999, 2000] {
        if sched.on_tick(t, &mut w) == TickOutcome::Applied {
            applied += 1;
        }
    }
    assert_eq!(applied, 1);
}

#[test]
fn missed_event_still_latches_without_error() {
    let mut w = World::new(0);
    let _ = build_scene(&mut w).unwrap();
    // A handle from a torn-down world: it no longer resolves.
    let stale = Handle { world: 99, index: 1 };
    let mut sched = scenario_scheduler(stale);

    assert_eq!(sched.on_tick(3500, &mut w), TickOutcome::Missed);
    assert_eq!(sched.state, LatchState::Fired);
    // The event does not retry once fired.
    assert_eq!(sched.on_tick(4000, &mut w), TickOutcome::Idle);
    // Nothing in the world moved.
    assert_eq!(
        w.get_body(Handle { world: 0, index: 1 }).unwrap().linvel,
        Vec3 { x: 100_000, y: 0, z: 100_000 }
    );
}

#[test]
fn impulse_on_kinematic_target_is_skipped() {
    let mut w = World::new(0);
    let h = build_scene(&mut w).unwrap();
    let mut sched = scenario_scheduler(h.kinematic);

    assert_eq!(sched.on_tick(3500, &mut w), TickOutcome::Missed);
    assert_eq!(sched.state, LatchState::Fired);
    let kin = w.get_body(h.kinematic).unwrap();
    assert_eq!(kin.linvel, Vec3 { x: 0, y: 0, z: 0 });
}

#[test]
fn end_to_end_scenario_fires_between_three_and_three_and_a_half_seconds() {
    let mut w = World::new(0);
    let h = build_scene(&mut w).unwrap();
    let mut sched = scenario_scheduler(h.dynamic);

    let kin_initial = *w.get_body(h.kinematic).unwrap();
    let pre_impulse_vx = w.get_body(h.dynamic).unwrap().linvel.x;

    // Advance simulated time from 0 to 3.5 s in fixed 250 ms steps.
    let mut fire_times = Vec::new();
    let mut t: i64 = 0;
    while t <= 3500 {
        if sched.on_tick(t, &mut w) == TickOutcome::Applied {
            fire_times.push(t);
        }
        t += 250;
    }

    // The impulse fired exactly once, strictly after 3.0 s and by 3.5 s.
    assert_eq!(fire_times.len(), 1);
    assert!(fire_times[0] > TRIGGER_TIME_MILLI && fire_times[0] <= 3500);

    // The dynamic body's x-velocity grew by exactly impulse_x / mass.
    let dyn_body = w.get_body(h.dynamic).unwrap();
    assert_eq!(
        dyn_body.linvel.x,
        pre_impulse_vx + SCENARIO_IMPULSE_X_MILLI * dyn_body.inv_mass_milli
    );
    assert_eq!(dyn_body.linvel.y, 0);
    assert_eq!(dyn_body.linvel.z, 100_000);

    // The kinematic anchor never moved: no impulse, motor or limit touches it.
    assert_eq!(*w.get_body(h.kinematic).unwrap(), kin_initial);
    assert_eq!(kin_initial.kind, BodyKind::Kinematic);
}

#[test]
fn teardown_and_rebuild_starts_over_armed() {
    let mut w = World::new(0);
    let h = build_scene(&mut w).unwrap();
    let mut sched = scenario_scheduler(h.dynamic);
    assert_eq!(sched.on_tick(3600, &mut w), TickOutcome::Applied);
    assert_eq!(sched.state, LatchState::Fired);

    // Full teardown, then rebuild: a new scheduler starts armed, and the old
    // world's handles resolve to nothing.
    let mut fresh = w.reset();
    let h2 = build_scene(&mut fresh).unwrap();
    let sched2 = scenario_scheduler(h2.dynamic);
    assert_eq!(sched2.state, LatchState::Armed);
    assert!(fresh.get_body(h.dynamic).is_none());
    assert!(fresh.get_body(h.kinematic).is_none());

    // The rebuilt scene is back at its initial state.
    assert_eq!(
        fresh.get_body(h2.dynamic).unwrap().linvel,
        Vec3 { x: 100_000, y: 0, z: 100_000 }
    );
}

#[test]
fn custom_scheduler_keeps_its_configuration() {
    let target = Handle { world: 3, index: 0 };
    let sched = EventScheduler::new(1234, target, Vec3 { x: -7, y: 8, z: 9 });
    assert_eq!(sched.state, LatchState::Armed);
    assert_eq!(sched.threshold_milli, 1234);
    assert_eq!(sched.target, target);
    assert_eq!(sched.impulse_milli, Vec3 { x: -7, y: 8, z: 9 });
}
