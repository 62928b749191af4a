//! The sampler/decision loop, as an explicit state machine.
//!
//! The monitor alternates between two phases on a fixed cadence. In
//! `ReferenceCapture` it stores the current acceleration vector as the new
//! baseline and settles briefly. In `Evaluation` it takes one full sample,
//! classifies the X-axis acceleration delta and the temperature delta against
//! their fixed limits, and schedules an alarm for each limit exceeded. A
//! failed sensor read is fatal: the monitor halts and never emits another
//! action.
//!
//! The temperature reference is captured once, when the monitor is built, and
//! never refreshed; only the acceleration reference is re-captured each
//! cycle. The asymmetry is deliberate: it is how the device behaves.
//!
//! The caller owns the hardware. It reads the sensor, hands the monitor one
//! event per phase, and performs the returned actions in order, blocking for
//! every pause.

use vstd::prelude::*;

use crate::alarm::Action;
use crate::alarm::Limit;
use crate::alarm::alarm_actions;
use crate::alarm::alarm_schedule;
use crate::alarm::lemma_alarm_pulse_counts;
use crate::readings::Fault;
use crate::readings::Sample;
use crate::readings::Vector3;
use crate::readings::mechanical_alarm_fires;
use crate::readings::mechanical_limit_exceeded;
use crate::readings::temperature_alarm_fires;
use crate::readings::temperature_limit_exceeded;

verus! {

/// Settle delay after capturing a fresh reference, in milliseconds.
pub const SETTLE_DELAY_MS: u64 = 100;

/// Delay after an evaluation phase, before the next capture, in milliseconds.
pub const POST_EVALUATION_DELAY_MS: u64 = 500;

/// Which phase of the sampling cycle the monitor is in.
#[derive(Clone, Copy, Debug, PartialEq, Eq, Structural)]
pub enum Phase {
    /// Waiting to store the next acceleration baseline.
    ReferenceCapture,
    /// Waiting to classify one full sample against the baseline.
    Evaluation,
    /// A read failed; the monitor is stopped for good.
    Halted(Fault),
}

/// What the caller observed at the sensor since the last step.
#[derive(Clone, Copy, Debug, PartialEq, Eq, Structural)]
pub enum Event {
    /// The reference-capture read succeeded with this acceleration vector.
    AccelerationCaptured(Vector3),
    /// The evaluation reads succeeded with this full sample.
    Sampled(Sample),
    /// A read failed on the given channel.
    ReadFailed(Fault),
}

/// The sampling/decision loop's whole state: the phase and the reference
/// baseline the next evaluation will compare against.
#[derive(Clone, Copy, Debug, PartialEq, Eq, Structural)]
pub struct Monitor {
    pub phase: Phase,
    pub acceleration_reference: Vector3,
    pub temperature_reference: i32,
}

/// The output schedule of one evaluation: a mechanical alarm if the X-axis
/// acceleration delta reaches its limit, then a temperature alarm if the
/// temperature delta reaches its limit, then the post-evaluation delay.
/// Angular rate takes no part in the decision.
pub open spec fn evaluation_schedule(monitor: Monitor, sample: Sample) -> Seq<Action> {
    (if mechanical_alarm_fires(
        sample.acceleration.x as int,
        monitor.acceleration_reference.x as int,
    ) {
        alarm_schedule(Limit::Mechanical)
    } else {
        Seq::empty()
    }) + (if temperature_alarm_fires(
        sample.temperature as int,
        monitor.temperature_reference as int,
    ) {
        alarm_schedule(Limit::Temperature)
    } else {
        Seq::empty()
    }) + seq![Action::Pause(POST_EVALUATION_DELAY_MS)]
}

/// One step of the state machine: from a monitor and the event the caller
/// observed, the next monitor and the actions to perform, in order.
///
/// A halted monitor ignores every event. A failed read halts. An event that
/// does not belong to the current phase changes nothing.
pub open spec fn step_spec(monitor: Monitor, event: Event) -> (Monitor, Seq<Action>) {
    match (monitor.phase, event) {
        (Phase::Halted(_), _) => (monitor, Seq::empty()),
        (Phase::ReferenceCapture, Event::AccelerationCaptured(vector)) => (
            Monitor { phase: Phase::Evaluation, acceleration_reference: vector, ..monitor },
            seq![Action::Pause(SETTLE_DELAY_MS)],
        ),
        (Phase::Evaluation, Event::Sampled(sample)) => (
            Monitor { phase: Phase::ReferenceCapture, ..monitor },
            evaluation_schedule(monitor, sample),
        ),
        (_, Event::ReadFailed(fault)) => (
            Monitor { phase: Phase::Halted(fault), ..monitor },
            Seq::empty(),
        ),
        (_, _) => (monitor, Seq::empty()),
    }
}

impl Monitor {
    /// Builds a monitor from the baseline read once at startup. The first
    /// phase re-captures the acceleration reference before anything is
    /// evaluated; the temperature reference stays as given here for the
    /// monitor's whole life.
    pub fn new(acceleration_reference: Vector3, temperature_reference: i32) -> (monitor: Monitor)
        ensures
            monitor.phase == Phase::ReferenceCapture,
            monitor.acceleration_reference == acceleration_reference,
            monitor.temperature_reference == temperature_reference,
    {
        Monitor { phase: Phase::ReferenceCapture, acceleration_reference, temperature_reference }
    }

    /// Advances the state machine by one event and returns the actions the
    /// caller must now perform, exactly as `step_spec` lays them out.
    pub fn step(&mut self, event: Event) -> (actions: Vec<Action>)
        ensures
            *final(self) == step_spec(*old(self), event).0,
            actions@ == step_spec(*old(self), event).1,
    {
        match (self.phase, event) {
            (Phase::Halted(_), _) => Vec::new(),
            (Phase::ReferenceCapture, Event::AccelerationCaptured(vector)) => {
                self.acceleration_reference = vector;
                self.phase = Phase::Evaluation;
                let mut actions: Vec<Action> = Vec::new();
                actions.push(Action::Pause(SETTLE_DELAY_MS));
                proof {
                    assert(actions@ =~= step_spec(*old(self), event).1);
                }
                actions
            },
            (Phase::Evaluation, Event::Sampled(sample)) => {
                let mut actions: Vec<Action> = Vec::new();
                if mechanical_limit_exceeded(
                    sample.acceleration.x,
                    self.acceleration_reference.x,
                ) {
                    let mut mechanical = alarm_actions(Limit::Mechanical);
                    actions.append(&mut mechanical);
                }
                if temperature_limit_exceeded(sample.temperature, self.temperature_reference) {
                    let mut temperature = alarm_actions(Limit::Temperature);
                    actions.append(&mut temperature);
                }
                actions.push(Action::Pause(POST_EVALUATION_DELAY_MS));
                self.phase = Phase::ReferenceCapture;
                proof {
                    assert(actions@ =~= evaluation_schedule(*old(self), sample));
                }
                actions
            },
            (_, Event::ReadFailed(fault)) => {
                self.phase = Phase::Halted(fault);
                Vec::new()
            },
            (_, _) => Vec::new(),
        }
    }
}

/// Law: once a monitor has halted on a fault, no event changes it and no
/// event makes it emit an action — no further alarm can ever fire.
pub proof fn lemma_halted_is_final(monitor: Monitor, event: Event, fault: Fault)
    requires
        monitor.phase == Phase::Halted(fault),
    ensures
        step_spec(monitor, event).0 == monitor,
        step_spec(monitor, event).1 == Seq::<Action>::empty(),
{
}

/// Law: the acceleration reference an evaluation compares against is exactly
/// the vector captured in the immediately preceding reference-capture phase,
/// never an earlier one. Two monitors whose earlier acceleration baselines
/// differ arbitrarily behave identically from the moment they capture the
/// same vector: there is no averaging and no smoothing.
pub proof fn lemma_reference_is_latest_capture(
    first: Monitor,
    second: Monitor,
    vector: Vector3,
    sample: Sample,
)
    requires
        first.phase == Phase::ReferenceCapture,
        second.phase == Phase::ReferenceCapture,
        first.temperature_reference == second.temperature_reference,
    ensures
        step_spec(first, Event::AccelerationCaptured(vector)).0.acceleration_reference == vector,
        step_spec(
            step_spec(first, Event::AccelerationCaptured(vector)).0,
            Event::Sampled(sample),
        ) == step_spec(
            step_spec(second, Event::AccelerationCaptured(vector)).0,
            Event::Sampled(sample),
        ),
{
}

/// Law: an evaluation stays quiet exactly when neither delta reaches its
/// limit, and a quiet evaluation schedules nothing but the post-evaluation
/// delay — no output is ever driven without a limit exceeded.
pub proof fn lemma_quiet_evaluation_is_one_pause(monitor: Monitor, sample: Sample)
    requires
        monitor.phase == Phase::Evaluation,
    ensures
        (!mechanical_alarm_fires(
            sample.acceleration.x as int,
            monitor.acceleration_reference.x as int,
        ) && !temperature_alarm_fires(
            sample.temperature as int,
            monitor.temperature_reference as int,
        )) <==> step_spec(monitor, Event::Sampled(sample)).1 == seq![
            Action::Pause(POST_EVALUATION_DELAY_MS),
        ],
{
    let actions = step_spec(monitor, Event::Sampled(sample)).1;
    lemma_alarm_pulse_counts(Limit::Mechanical);
    lemma_alarm_pulse_counts(Limit::Temperature);
    if !mechanical_alarm_fires(
        sample.acceleration.x as int,
        monitor.acceleration_reference.x as int,
    ) && !temperature_alarm_fires(
        sample.temperature as int,
        monitor.temperature_reference as int,
    ) {
        assert(actions =~= seq![Action::Pause(POST_EVALUATION_DELAY_MS)]);
    } else {
        assert(actions.len() > 1);
    }
}

/// Law: angular-rate values never trigger an alarm, whatever their magnitude.
/// Two samples that agree on acceleration and temperature lead to the same
/// next state and the same actions, however their angular rates differ.
pub proof fn lemma_angular_rate_never_alarms(monitor: Monitor, first: Sample, second: Sample)
    requires
        first.acceleration == second.acceleration,
        first.temperature == second.temperature,
    ensures
        step_spec(monitor, Event::Sampled(first)).0 == step_spec(
            monitor,
            Event::Sampled(second),
        ).0,
        step_spec(monitor, Event::Sampled(first)).1 == step_spec(
            monitor,
            Event::Sampled(second),
        ).1,
{
}

} // verus!
