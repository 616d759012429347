use vstd::prelude::*;

use crate::scene::{
    spec_boosted, spec_dv_fits, Body, BodyKind, Handle, World, IMPULSE_LIMIT_MILLI,
};
use crate::vec3::Vec3;

verus! {

/// The simulation time past which the scenario's event fires, in
/// thousandths of a second: three seconds.
pub const TRIGGER_TIME_MILLI: i64 = 3000;

/// The x-component of the scenario's impulse, in thousandths: five units.
pub const SCENARIO_IMPULSE_X_MILLI: i64 = 5000;

/// The latch of a pending event: it starts `Armed` and moves to `Fired` at
/// most once; nothing ever moves it back.
#[derive(Clone, Copy, PartialEq, Eq, Structural, Debug)]
pub enum LatchState {
    Armed,
    Fired,
}

/// What a fired event asks of the backend: one instantaneous impulse, in
/// thousandths, on the body behind the handle.
#[derive(Clone, Copy, PartialEq, Eq, Structural, Debug)]
pub struct ImpulseAction {
    pub target: Handle,
    pub impulse_milli: Vec3,
}

/// What one tick did: nothing, the impulse was applied, or the event fired
/// but its target was gone and the action was skipped.
#[derive(Clone, Copy, PartialEq, Eq, Structural, Debug)]
pub enum TickOutcome {
    Idle,
    Applied,
    Missed,
}

/// A single armed-or-fired event bound to a simulation-time threshold and an
/// impulse on one body. The host evaluates it once per tick; the latch is
/// owned here and mutated only by that evaluation.
#[derive(Clone, Copy, PartialEq, Eq, Structural, Debug)]
pub struct EventScheduler {
    pub state: LatchState,
    pub threshold_milli: i64,
    pub target: Handle,
    pub impulse_milli: Vec3,
}

/// The tick fires exactly when the latch is still armed and the supplied
/// time lies strictly past the threshold.
pub open spec fn spec_fires(s: EventScheduler, current_time_milli: i64) -> bool {
    s.state == LatchState::Armed && current_time_milli > s.threshold_milli
}

/// The latch after one tick: fired ticks latch to `Fired`, all others leave
/// the scheduler exactly as it was — in particular a fired latch ignores
/// every later time value, including decreasing ones.
pub open spec fn spec_next(s: EventScheduler, current_time_milli: i64) -> EventScheduler {
    if spec_fires(s, current_time_milli) {
        EventScheduler { state: LatchState::Fired, ..s }
    } else {
        s
    }
}

/// The latch after a whole sequence of tick times.
pub open spec fn spec_run(s: EventScheduler, times: Seq<i64>) -> EventScheduler
    decreases times.len(),
{
    if times.len() == 0 {
        s
    } else {
        spec_run(spec_next(s, times[0]), times.drop_first())
    }
}

/// How many ticks of the sequence fire.
pub open spec fn spec_fire_count(s: EventScheduler, times: Seq<i64>) -> nat
    decreases times.len(),
{
    if times.len() == 0 {
        0nat
    } else {
        (if spec_fires(s, times[0]) {
            1nat
        } else {
            0nat
        }) + spec_fire_count(spec_next(s, times[0]), times.drop_first())
    }
}

/// Once the latch is fired, no sequence of tick times of any shape fires
/// again or changes the scheduler.
pub proof fn lemma_fired_stays_fired(s: EventScheduler, times: Seq<i64>)
    requires
        s.state == LatchState::Fired,
    ensures
        spec_fire_count(s, times) == 0,
        spec_run(s, times) == s,
    decreases times.len(),
{
    if times.len() > 0 {
        lemma_fired_stays_fired(s, times.drop_first());
    }
}

/// The single-fire law: whatever the starting latch and whatever sequence of
/// tick times the host supplies — increasing, repeating or decreasing — the
/// impulse action executes at most once.
pub proof fn lemma_single_fire(s: EventScheduler, times: Seq<i64>)
    ensures
        spec_fire_count(s, times) <= 1,
    decreases times.len(),
{
    if times.len() > 0 {
        if spec_fires(s, times[0]) {
            lemma_fired_stays_fired(spec_next(s, times[0]), times.drop_first());
        } else {
            lemma_single_fire(spec_next(s, times[0]), times.drop_first());
        }
    }
}

/// An armed event whose tick times cross the threshold at least once fires
/// exactly once.
pub proof fn lemma_fires_exactly_once(s: EventScheduler, times: Seq<i64>)
    requires
        s.state == LatchState::Armed,
        exists|i: int| 0 <= i < times.len() && times[i] > s.threshold_milli,
    ensures
        spec_fire_count(s, times) == 1,
    decreases times.len(),
{
    if spec_fires(s, times[0]) {
        lemma_fired_stays_fired(spec_next(s, times[0]), times.drop_first());
    } else {
        let i = choose|i: int| 0 <= i < times.len() && times[i] > s.threshold_milli;
        assert(times.drop_first()[i - 1] == times[i]);
        lemma_fires_exactly_once(s, times.drop_first());
    }
}

/// The event names its target body. A tick fires on it exactly when the
/// latch fires while the handle still resolves, in this world, to a dynamic
/// body; the fired tick boosts that body and nothing else. Every other tick
/// — idle, already fired, or fired with the target gone or kinematic —
/// leaves the storage exactly as it was.
pub open spec fn spec_bodies_after_tick(
    s: EventScheduler,
    world_id: u64,
    bodies: Seq<Body>,
    t: i64,
) -> Seq<Body> {
    if spec_fires(s, t) && s.target.world == world_id && s.target.index < bodies.len() && bodies[
        s.target.index as int
    ].kind == BodyKind::Dynamic {
        bodies.update(
            s.target.index as int,
            spec_boosted(bodies[s.target.index as int], s.impulse_milli),
        )
    } else {
        bodies
    }
}

/// The body storage after a whole sequence of tick times, the latch
/// advancing alongside it.
pub open spec fn spec_run_bodies(
    s: EventScheduler,
    world_id: u64,
    bodies: Seq<Body>,
    times: Seq<i64>,
) -> Seq<Body>
    decreases times.len(),
{
    if times.len() == 0 {
        bodies
    } else {
        spec_run_bodies(
            spec_next(s, times[0]),
            world_id,
            spec_bodies_after_tick(s, world_id, bodies, times[0]),
            times.drop_first(),
        )
    }
}

/// A fired latch leaves the body storage untouched for the rest of time.
pub proof fn lemma_run_fired_leaves_bodies(
    s: EventScheduler,
    world_id: u64,
    bodies: Seq<Body>,
    times: Seq<i64>,
)
    requires
        s.state == LatchState::Fired,
    ensures
        spec_run_bodies(s, world_id, bodies, times) == bodies,
    decreases times.len(),
{
    if times.len() > 0 {
        lemma_run_fired_leaves_bodies(s, world_id, bodies, times.drop_first());
    }
}

/// What a whole run of ticks does to the bodies, whatever the tick times:
/// every body other than the event's target keeps its value; the target is
/// boosted exactly once when some tick fires while it resolves to a dynamic
/// body; and when no tick fires, or the target is gone or kinematic, the
/// storage comes out exactly as it went in.
pub proof fn lemma_run_effect(s: EventScheduler, world_id: u64, bodies: Seq<Body>, times: Seq<i64>)
    ensures
        spec_run_bodies(s, world_id, bodies, times).len() == bodies.len(),
        forall|i: int|
            0 <= i < bodies.len() && i != s.target.index ==> #[trigger] spec_run_bodies(
                s,
                world_id,
                bodies,
                times,
            )[i] == bodies[i],
        (s.target.world == world_id && s.target.index < bodies.len() && bodies[
            s.target.index as int
        ].kind == BodyKind::Dynamic && spec_fire_count(s, times) == 1) ==> spec_run_bodies(
            s,
            world_id,
            bodies,
            times,
        )[s.target.index as int] == spec_boosted(
            bodies[s.target.index as int],
            s.impulse_milli,
        ),
        (spec_fire_count(s, times) == 0 || !(s.target.world == world_id && s.target.index
            < bodies.len() && bodies[s.target.index as int].kind == BodyKind::Dynamic))
            ==> spec_run_bodies(s, world_id, bodies, times) == bodies,
    decreases times.len(),
{
    if times.len() > 0 {
        let t0 = times[0];
        let rest = times.drop_first();
        if spec_fires(s, t0) {
            let s1 = spec_next(s, t0);
            let b1 = spec_bodies_after_tick(s, world_id, bodies, t0);
            lemma_fired_stays_fired(s1, rest);
            lemma_run_fired_leaves_bodies(s1, world_id, b1, rest);
        } else {
            lemma_run_effect(s, world_id, bodies, rest);
        }
    }
}

/// The kinematic invariant over whole runs: no sequence of ticks ever moves
/// a kinematic body — the scripted impulse touches dynamic bodies alone.
pub proof fn lemma_run_kinematic_invariant(
    s: EventScheduler,
    world_id: u64,
    bodies: Seq<Body>,
    times: Seq<i64>,
)
    ensures
        forall|i: int|
            0 <= i < bodies.len() && (#[trigger] bodies[i]).kind == BodyKind::Kinematic
                ==> spec_run_bodies(s, world_id, bodies, times)[i] == bodies[i],
{
    lemma_run_effect(s, world_id, bodies, times);
    assert forall|i: int|
        0 <= i < bodies.len() && (#[trigger] bodies[i]).kind == BodyKind::Kinematic
        implies spec_run_bodies(s, world_id, bodies, times)[i] == bodies[i] by {
        if i == s.target.index {
            assert(spec_run_bodies(s, world_id, bodies, times) == bodies);
        }
    }
}

impl EventScheduler {
    /// The impulse the event would apply is representable.
    pub open spec fn wf(self) -> bool {
        self.impulse_milli.spec_in_bounds(IMPULSE_LIMIT_MILLI)
    }

    /// A fresh event: armed, bound to its threshold, target and impulse.
    pub fn new(threshold_milli: i64, target: Handle, impulse_milli: Vec3) -> (s: EventScheduler)
        requires
            impulse_milli.spec_in_bounds(IMPULSE_LIMIT_MILLI),
        ensures
            s == (EventScheduler { state: LatchState::Armed, threshold_milli, target, impulse_milli }),
            s.wf(),
    {
        EventScheduler { state: LatchState::Armed, threshold_milli, target, impulse_milli }
    }

    /// The per-tick decision, free of any backend: if the event is armed and
    /// the time is past the threshold, latch to `Fired` and hand the host the
    /// action to perform; otherwise do nothing. A host that owns its own
    /// backend performs the returned action itself; `on_tick` does the same
    /// against the model world.
    pub fn poll(&mut self, current_time_milli: i64) -> (r: Option<ImpulseAction>)
        ensures
            *final(self) == spec_next(*old(self), current_time_milli),
            r is Some <==> spec_fires(*old(self), current_time_milli),
            r matches Some(a) ==> a == (ImpulseAction {
                target: old(self).target,
                impulse_milli: old(self).impulse_milli,
            }),
            old(self).state == LatchState::Fired ==> *final(self) == *old(self) && r is None,
            final(self).state == LatchState::Fired <==> (old(self).state == LatchState::Fired
                || spec_fires(*old(self), current_time_milli)),
            old(self).wf() ==> final(self).wf(),
    {
        if self.state == LatchState::Armed && current_time_milli > self.threshold_milli {
            self.state = LatchState::Fired;
            Some(ImpulseAction { target: self.target, impulse_milli: self.impulse_milli })
        } else {
            None
        }
    }

    /// One simulation tick against the model world. An armed event past its
    /// threshold latches to `Fired` and applies its impulse to the target
    /// body's linear momentum; if the handle no longer resolves to a dynamic
    /// body the action is skipped — a missed event, not an error — and the
    /// latch still fires. A fired event ignores the tick entirely, whatever
    /// the time value. Kinematic bodies are never touched, and nothing but
    /// the target body's linear velocity ever changes.
    pub fn on_tick(&mut self, current_time_milli: i64, world: &mut World) -> (r: TickOutcome)
        requires
            old(self).wf(),
            old(world).wf(),
            forall|i: int|
                0 <= i < old(world).bodies@.len() ==> spec_dv_fits(
                    #[trigger] old(world).bodies@[i],
                    old(self).impulse_milli,
                ),
        ensures
            final(world).wf(),
            final(self).wf(),
            *final(self) == spec_next(*old(self), current_time_milli),
            final(world).bodies@ == spec_bodies_after_tick(
                *old(self),
                old(world).id,
                old(world).bodies@,
                current_time_milli,
            ),
            final(world).id == old(world).id,
            final(world).colliders@ == old(world).colliders@,
            final(world).joints@ == old(world).joints@,
            final(world).bodies@.len() == old(world).bodies@.len(),
            old(self).state == LatchState::Fired ==> r == TickOutcome::Idle && *final(world)
                == *old(world) && *final(self) == *old(self),
            !spec_fires(*old(self), current_time_milli) ==> r == TickOutcome::Idle && *final(world)
                == *old(world),
            spec_fires(*old(self), current_time_milli) ==> final(self).state == LatchState::Fired,
            (spec_fires(*old(self), current_time_milli) && old(world).resolves(old(self).target)
                && old(world).bodies@[old(self).target.index as int].kind == BodyKind::Dynamic)
                ==> r == TickOutcome::Applied && final(world).bodies@ == old(world).bodies@.update(
                old(self).target.index as int,
                spec_boosted(
                    old(world).bodies@[old(self).target.index as int],
                    old(self).impulse_milli,
                ),
            ),
            (spec_fires(*old(self), current_time_milli) && !(old(world).resolves(old(self).target)
                && old(world).bodies@[old(self).target.index as int].kind == BodyKind::Dynamic))
                ==> r == TickOutcome::Missed && final(world).bodies@ == old(world).bodies@,
            forall|i: int|
                0 <= i < old(world).bodies@.len() && (#[trigger] old(world).bodies@[i]).kind
                    == BodyKind::Kinematic ==> final(world).bodies@[i] == old(world).bodies@[i],
    {
        match self.poll(current_time_milli) {
            Some(action) => {
                if world.apply_impulse(action.target, action.impulse_milli) {
                    TickOutcome::Applied
                } else {
                    TickOutcome::Missed
                }
            },
            None => TickOutcome::Idle,
        }
    }
}

/// The scenario's event: armed, firing past three seconds, pushing the
/// dynamic body with an impulse of five units along x.
pub fn scenario_scheduler(target: Handle) -> (s: EventScheduler)
    ensures
        s == (EventScheduler {
            state: LatchState::Armed,
            threshold_milli: TRIGGER_TIME_MILLI,
            target,
            impulse_milli: Vec3 { x: SCENARIO_IMPULSE_X_MILLI, y: 0, z: 0 },
        }),
        s.wf(),
{
    EventScheduler::new(
        TRIGGER_TIME_MILLI,
        target,
        Vec3 { x: SCENARIO_IMPULSE_X_MILLI, y: 0, z: 0 },
    )
}

} // verus!
