//! Properties of the mount's operations that span more than one call.
use vstd::prelude::*;
use crate::ascom_state::{AscomState, ConnectedState, GuideState, RestorableState, SlewingState};
use crate::config::AutoGuideSpeed;
use crate::enums::{PierSide, TrackingRate};
use crate::guide::{spec_distance, spec_guide_rate, spec_guide_rate_acceptable, spec_is_best_speed};
use crate::long_tasks::{
    guide_rate_in_range, spec_goto_ended, spec_goto_running, spec_return_step, PulseGuideTask, SlewToTask,
};
use crate::motion::MotionRate;
use crate::motor::{
    is_driveable, lemma_clamp_rate, settled_state, spec_clamp_speed, spec_plan, MotorCommand, MotorState,
    RateChange,
};
use crate::tasks::{spec_outcome, spec_restore_step, MoveMotorTask, UnparkTask};
use crate::connection::{spec_dispatch_ok, ActiveTask, Dispatch, Operation};

verus! {

/// A manual move of the axis followed by aborting the slew returns the mount
/// to where it was: a tracking mount tracks again at its rate, and an idle one
/// is idle with its motor stopped.
pub proof fn lemma_abort_undoes_move(s: ConnectedState, rate: MotionRate)
    requires
        s.wf(),
        s.is_quiet(),
        s.ascom_state == AscomState::Tracking(GuideState::Idle) || (s.ascom_state == AscomState::Idle(
            GuideState::Idle,
        ) && s.motor_state is Stationary),
    ensures
        ({
            let moved = spec_outcome(s, MoveMotorTask::spec_move_step(s, rate));
            moved.ascom_state matches AscomState::Slewing(SlewingState::MoveAxis(rs, _)) && spec_outcome(
                moved,
                spec_restore_step(rs),
            ) == s
        }),
{
    let moved = spec_outcome(s, MoveMotorTask::spec_move_step(s, rate));
    MotionRate::lemma_from_velocity(0);
    if s.ascom_state is Tracking {
        let r = s.motor_state.spec_rate();
        match s.motor_state {
            MotorState::Moving(m) => {
                lemma_clamp_rate(m);
                MotionRate::lemma_eq_by_velocity(MotionRate::from_velocity(crate::motor::spec_clamp_rate(m)), m);
            },
            _ => {
                MotionRate::lemma_eq_by_velocity(r, MotionRate::spec_zero());
            },
        }
    }
}

/// The guide pulse's rate is taken away again when the pulse ends: the motor
/// returns to the rate it turned at before, and the mount stops guiding, when
/// neither rate needed bringing into the driveable range.
pub proof fn lemma_pulse_guide_restores_rate(t: PulseGuideTask, s: ConnectedState)
    requires
        s.wf(),
        s.is_quiet(),
        !(s.ascom_state is Parked),
        guide_rate_in_range(t.spec_guide_rate()),
        ({
            let sum = MotionRate::from_velocity(s.motor_state.spec_rate().velocity() + t.spec_guide_rate().velocity());
            sum.spec_is_zero() || is_driveable(sum)
        }),
    ensures
        ({
            let guided = spec_outcome(s, t.spec_start_step(s));
            let ended = spec_outcome(guided, t.spec_complete_step(guided));
            &&& guided.ascom_state.spec_is_guiding()
            &&& ended.motor_state == s.motor_state
            &&& ended.ascom_state == s.ascom_state
        }),
{
    let base = s.motor_state.spec_rate();
    let g = t.spec_guide_rate();
    crate::motor::lemma_wf_rate_bounded(s.motor_state);
    MotionRate::lemma_from_velocity(0);
    let sum_v = base.velocity() + g.velocity();
    MotionRate::lemma_from_velocity(sum_v);
    let sum = MotionRate::from_velocity(sum_v);
    let guided = spec_outcome(s, t.spec_start_step(s));
    if !sum.spec_is_zero() {
        lemma_clamp_rate(sum);
        MotionRate::lemma_eq_by_velocity(MotionRate::from_velocity(crate::motor::spec_clamp_rate(sum)), sum);
    } else {
        MotionRate::lemma_eq_by_velocity(sum, MotionRate::spec_zero());
    }
    assert(guided.motor_state.spec_rate() == sum);
    MotionRate::lemma_from_velocity(base.velocity());
    let back = MotionRate::from_velocity(sum_v - g.velocity());
    MotionRate::lemma_eq_by_velocity(back, base);
    match s.motor_state {
        MotorState::Moving(m) => {
            lemma_clamp_rate(m);
            MotionRate::lemma_eq_by_velocity(MotionRate::from_velocity(crate::motor::spec_clamp_rate(m)), m);
        },
        _ => {
            MotionRate::lemma_eq_by_velocity(base, MotionRate::spec_zero());
        },
    }
}

/// A meridian flip and a second one bring the mount back to its side.
pub proof fn lemma_flip_twice(p: PierSide)
    ensures
        p.spec_opposite().spec_opposite() == p,
{
}

/// A step period computed for a tracking rate is recognised as a rate with the
/// same period: the rate itself, unless a rate earlier in the order sidereal,
/// lunar, solar, king has the same period.
pub proof fn lemma_period_recognised(r: TrackingRate, frequency: u32, steps: u32)
    ensures
        ({
            let p = r.spec_step_period(frequency, steps) as u32;
            TrackingRate::spec_from_period(p, frequency, steps) matches Some(x) && x.spec_step_period(frequency, steps)
                == r.spec_step_period(frequency, steps)
        }),
        (forall|q: TrackingRate| q != r ==> #[trigger] q.spec_step_period(frequency, steps) != r.spec_step_period(frequency, steps))
            ==> TrackingRate::spec_from_period(r.spec_step_period(frequency, steps) as u32, frequency, steps) == Some(r),
{
    assert(0 <= r.spec_step_period(frequency, steps) <= u32::MAX) by {
        if steps != 0 {
            let num = frequency * 360 * crate::enums::PICODEGREES_PER_DEGREE;
            let den = steps * r.spec_rate_pdeg();
            assert(den > 0) by (nonlinear_arith)
                requires
                    steps > 0,
                    r.spec_rate_pdeg() > 0,
                    den == steps * r.spec_rate_pdeg(),
            ;
            assert(num >= 0) by (nonlinear_arith)
                requires
                    frequency >= 0,
                    num == frequency * 360 * crate::enums::PICODEGREES_PER_DEGREE,
            ;
            assert((2 * num + den) / (2 * den) >= 0) by (nonlinear_arith)
                requires
                    num >= 0,
                    den > 0,
            ;
        }
    }
    assert(TrackingRate::Sidereal.spec_step_period(frequency, steps) != r.spec_step_period(frequency, steps) ==> r != TrackingRate::Sidereal);
}

/// Asking for the guide rate of a speed chooses that speed again: the guide
/// rate that is read back is accepted, and no other speed is as close to it.
pub proof fn lemma_guide_rate_round_trip(s: AutoGuideSpeed, t: TrackingRate)
    ensures
        spec_guide_rate_acceptable(t, spec_guide_rate(s, t)),
        spec_is_best_speed(s, t, spec_guide_rate(s, t)),
        forall|c: AutoGuideSpeed| spec_is_best_speed(c, t, spec_guide_rate(s, t)) ==> c == s,
{
    let g = spec_guide_rate(s, t);
    assert(spec_guide_rate_acceptable(t, g)) by {
        match t {
            TrackingRate::Sidereal => {},
            TrackingRate::Lunar => {},
            TrackingRate::Solar => {},
            TrackingRate::King => {},
        }
    }
    assert forall|c: AutoGuideSpeed| spec_distance(s, t, g) <= #[trigger] spec_distance(c, t, g) by {}
    assert forall|c: AutoGuideSpeed| c.spec_eighths() < s.spec_eighths() implies spec_distance(s, t, g) < #[trigger] spec_distance(c, t, g) by {}
    assert forall|c: AutoGuideSpeed| spec_is_best_speed(c, t, g) implies c == s by {
        assert(spec_distance(c, t, g) <= spec_distance(s, t, g));
    }
}

/// Asking the motor again for the rate it was just brought to changes
/// nothing: for a zero rate or a driveable one, the second change is planned
/// as no change at all.
pub proof fn lemma_repeated_rate_change_does_nothing(to: MotionRate)
    requires
        to.spec_is_zero() || is_driveable(to),
    ensures
        spec_plan(settled_state(to).spec_rate(), to) == RateChange::Unchanged,
{
    MotionRate::lemma_from_velocity(0);
    if to.spec_is_zero() {
        MotionRate::lemma_eq_by_velocity(to, MotionRate::spec_zero());
    } else {
        lemma_clamp_rate(to);
        MotionRate::lemma_eq_by_velocity(MotionRate::from_velocity(crate::motor::spec_clamp_rate(to)), to);
    }
}

/// A tracking rate is read back unchanged from its ASCOM number: two rates
/// with the same number are the same rate.
pub proof fn lemma_tracking_rate_code_round_trip(t: TrackingRate, u: TrackingRate)
    ensures
        t.spec_code() == u.spec_code() ==> t == u,
        0 <= t.spec_code() <= 3,
{
}

/// A side of the pier is read back unchanged from its ASCOM number: two sides
/// with the same number are the same side.
pub proof fn lemma_pier_side_code_round_trip(p: PierSide, q: PierSide)
    ensures
        p.spec_code() == q.spec_code() ==> p == q,
        -1 <= p.spec_code() <= 1,
{
}

/// Unparking twice leaves the mount as unparking once does. While a slew or a
/// guide pulse runs, an unpark is skipped and changes nothing; otherwise it
/// runs, and once the mount is unparked a second unpark changes nothing.
pub proof fn lemma_unpark_twice_is_once(s: ConnectedState, active: ActiveTask, tracking: bool, d: Dispatch)
    requires
        s.wf(),
        spec_dispatch_ok(Operation::Unpark, active, tracking, d),
    ensures
        (active == ActiveTask::Slewing || active == ActiveTask::Guiding) ==> d is Skip,
        ({
            let once = spec_outcome(s, UnparkTask::spec_step(s));
            &&& once.wf()
            &&& !(once.ascom_state is Parked)
            &&& spec_outcome(once, UnparkTask::spec_step(once)) == once
        }),
{
}

/// Turning the motor the other way stops it first: when the motor turns and is
/// asked to turn in the other direction, the plan stops it, waits for it to
/// stop, sets the new direction, sets the speed (brought into the driveable
/// range), starts it and waits for the rate.
pub proof fn lemma_reversal_stops_first(from: MotionRate, to: MotionRate)
    requires
        !from.spec_is_zero(),
        !to.spec_is_zero(),
        from.spec_direction() != to.spec_direction(),
    ensures
        ({
            let c = spec_plan(from, to).spec_commands();
            &&& c.len() == 6
            &&& c[0] == MotorCommand::StopMotion
            &&& c[1] == MotorCommand::WaitForStop
            &&& c[2] == MotorCommand::SetTrackingMode(to.spec_direction())
            &&& c[3] == MotorCommand::SetMotionRate(spec_clamp_speed(to.spec_rate()) as u64)
            &&& c[4] == MotorCommand::StartMotion
        }),
{
    MotionRate::lemma_eq_by_velocity(from, to);
    lemma_clamp_rate(to);
    let c = MotionRate::from_velocity(crate::motor::spec_clamp_rate(to));
    MotionRate::lemma_from_velocity(crate::motor::spec_clamp_rate(to));
}

/// Changing the speed in the same direction never stops the motor: when the
/// motor turns and is asked for another non-zero rate in the same direction,
/// no command of the plan stops it or changes its direction.
pub proof fn lemma_same_direction_never_stops(from: MotionRate, to: MotionRate)
    requires
        !from.spec_is_zero(),
        !to.spec_is_zero(),
        from.spec_direction() == to.spec_direction(),
    ensures
        ({
            let c = spec_plan(from, to).spec_commands();
            forall|i: int| 0 <= i < c.len() ==> !(#[trigger] c[i] is StopMotion) && !(c[i] is SetTrackingMode)
                && !(c[i] is StartMotion)
        }),
{
}

/// A run of manual moves ended by an abort returns the mount to where it was
/// before the first move: a tracking mount tracks again at its rate, and an
/// idle one is idle with its motor stopped, however the speed of the move was
/// changed on the way.
pub proof fn lemma_moves_then_abort_restore(s: ConnectedState, first: MotionRate, second: MotionRate)
    requires
        s.wf(),
        s.is_quiet(),
        s.ascom_state == AscomState::Tracking(GuideState::Idle) || (s.ascom_state == AscomState::Idle(
            GuideState::Idle,
        ) && s.motor_state is Stationary),
    ensures
        ({
            let m1 = spec_outcome(s, MoveMotorTask::spec_move_step(s, first));
            let m2 = spec_outcome(m1, MoveMotorTask::spec_move_step(m1, second));
            m2.ascom_state matches AscomState::Slewing(SlewingState::MoveAxis(rs, _)) && spec_outcome(
                m2,
                spec_restore_step(rs),
            ) == s
        }),
{
    lemma_abort_undoes_move(s, first);
}

/// A slew begun while the mount tracks, or during a manual move that began
/// while it tracked, ends with the mount tracking again at the rate it
/// tracked at.
pub proof fn lemma_slew_resumes_tracking(s: ConnectedState, r: MotionRate)
    requires
        s.wf(),
        s.is_quiet(),
        is_driveable(r),
        (s.ascom_state == AscomState::Tracking(GuideState::Idle) && s.motor_state == MotorState::Moving(r))
            || (s.ascom_state matches AscomState::Slewing(SlewingState::MoveAxis(rs, _)) && rs
            == RestorableState::Tracking(r)),
    ensures
        ({
            let ended = spec_goto_ended(spec_goto_running(s));
            let done = spec_outcome(ended, spec_return_step(SlewToTask::spec_return_state(s)));
            done.ascom_state == AscomState::Tracking(GuideState::Idle) && done.motor_state == MotorState::Moving(r)
        }),
{
    lemma_clamp_rate(r);
    MotionRate::lemma_eq_by_velocity(MotionRate::from_velocity(crate::motor::spec_clamp_rate(r)), r);
    MotionRate::lemma_from_velocity(0);
    MotionRate::lemma_eq_by_velocity(r, MotionRate::spec_zero());
}

/// While a guide pulse runs, every operation other than another pulse, an
/// unpark or a change of the tracking rate runs after the pulse is aborted:
/// starting or stopping tracking, a manual move, a slew, parking and aborting
/// the slew are never refused or skipped because of the pulse.
pub proof fn lemma_guide_pulse_yields(op: Operation, tracking: bool, d: Dispatch)
    requires
        op != Operation::PulseGuide,
        op != Operation::Unpark,
        op != Operation::UpdateTrackingRate,
        spec_dispatch_ok(op, ActiveTask::Guiding, tracking, d),
    ensures
        d == (Dispatch::Run { abort_active: true }),
{
}

/// The guide rate of each auto-guide speed is the fraction of the tracking
/// rate that the speed is named after: 1/8, 1/4, 1/2, 3/4 and all of it.
pub proof fn lemma_guide_speed_fractions(t: TrackingRate)
    ensures
        8 * spec_guide_rate(AutoGuideSpeed::Eighth, t) == t.spec_rate_pdeg(),
        4 * spec_guide_rate(AutoGuideSpeed::Quarter, t) == t.spec_rate_pdeg(),
        2 * spec_guide_rate(AutoGuideSpeed::Half, t) == t.spec_rate_pdeg(),
        4 * spec_guide_rate(AutoGuideSpeed::ThreeQuarters, t) == 3 * t.spec_rate_pdeg(),
        spec_guide_rate(AutoGuideSpeed::One, t) == t.spec_rate_pdeg(),
{
    match t {
        TrackingRate::Sidereal => {},
        TrackingRate::Lunar => {},
        TrackingRate::Solar => {},
        TrackingRate::King => {},
    }
}

} // verus!
