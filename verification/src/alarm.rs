//! The alarm signaler.
//!
//! Given a limit classification, the signaler pulses the two digital outputs
//! (buzzer and indicator) high-then-low a kind-dependent number of times at a
//! kind-dependent pulse width. Both outputs are driven identically and
//! simultaneously, so one action stands for both. The library produces the
//! pulse sequence as data; the caller performs it on the hardware, blocking
//! until the whole sequence is done.

use vstd::prelude::*;

verus! {

/// Pulse width of one mechanical-alarm half-period, in milliseconds.
pub const MECHANICAL_PULSE_MS: u64 = 100;

/// Pulse width of one temperature-alarm half-period, in milliseconds.
pub const TEMPERATURE_PULSE_MS: u64 = 50;

/// Number of high/low pulse pairs of a mechanical alarm.
pub const MECHANICAL_PULSE_PAIRS: u64 = 3;

/// Number of high/low pulse pairs of a temperature alarm.
pub const TEMPERATURE_PULSE_PAIRS: u64 = 9;

/// Which fixed limit a deviating reading exceeded.
#[derive(Clone, Copy, Debug, PartialEq, Eq, Structural)]
pub enum Limit {
    Mechanical,
    Temperature,
}

/// One step of the output schedule the caller is to perform, in order.
#[derive(Clone, Copy, Debug, PartialEq, Eq, Structural)]
pub enum Action {
    /// Drive both outputs (buzzer and indicator) high.
    OutputsHigh,
    /// Drive both outputs low.
    OutputsLow,
    /// Block for the given number of milliseconds.
    Pause(u64),
}

/// How many high/low pairs an alarm of this kind pulses.
pub open spec fn pulse_pairs(limit: Limit) -> nat {
    match limit {
        Limit::Mechanical => MECHANICAL_PULSE_PAIRS as nat,
        Limit::Temperature => TEMPERATURE_PULSE_PAIRS as nat,
    }
}

/// The width of each high and each low phase of an alarm of this kind,
/// in milliseconds.
pub open spec fn pulse_width_ms(limit: Limit) -> u64 {
    match limit {
        Limit::Mechanical => MECHANICAL_PULSE_MS,
        Limit::Temperature => TEMPERATURE_PULSE_MS,
    }
}

/// `pairs` high/low pulse pairs of the given width: high, hold, low, hold,
/// over and over.
pub open spec fn pulse_train(width_ms: u64, pairs: nat) -> Seq<Action>
    decreases pairs,
{
    if pairs == 0 {
        Seq::empty()
    } else {
        pulse_train(width_ms, (pairs - 1) as nat).push(Action::OutputsHigh).push(
            Action::Pause(width_ms),
        ).push(Action::OutputsLow).push(Action::Pause(width_ms))
    }
}

/// The full output schedule of an alarm of the given kind.
pub open spec fn alarm_schedule(limit: Limit) -> Seq<Action> {
    pulse_train(pulse_width_ms(limit), pulse_pairs(limit))
}

/// How many times a schedule drives the outputs high.
pub open spec fn high_count(schedule: Seq<Action>) -> nat
    decreases schedule.len(),
{
    if schedule.len() == 0 {
        0
    } else {
        high_count(schedule.drop_last()) + if schedule.last() is OutputsHigh {
            1nat
        } else {
            0nat
        }
    }
}

/// How many times a schedule drives the outputs low.
pub open spec fn low_count(schedule: Seq<Action>) -> nat
    decreases schedule.len(),
{
    if schedule.len() == 0 {
        0
    } else {
        low_count(schedule.drop_last()) + if schedule.last() is OutputsLow {
            1nat
        } else {
            0nat
        }
    }
}

proof fn lemma_pulse_train_counts(width_ms: u64, pairs: nat)
    ensures
        high_count(pulse_train(width_ms, pairs)) == pairs,
        low_count(pulse_train(width_ms, pairs)) == pairs,
        pulse_train(width_ms, pairs).len() == 4 * pairs,
    decreases pairs,
{
    if pairs > 0 {
        lemma_pulse_train_counts(width_ms, (pairs - 1) as nat);
        let prev = pulse_train(width_ms, (pairs - 1) as nat);
        let s1 = prev.push(Action::OutputsHigh);
        let s2 = s1.push(Action::Pause(width_ms));
        let s3 = s2.push(Action::OutputsLow);
        let s4 = s3.push(Action::Pause(width_ms));
        assert(s4.drop_last() =~= s3);
        assert(s3.drop_last() =~= s2);
        assert(s2.drop_last() =~= s1);
        assert(s1.drop_last() =~= prev);
        assert(pulse_train(width_ms, pairs) == s4);
        assert(high_count(s4) == high_count(s3));
        assert(high_count(s3) == high_count(s2));
        assert(high_count(s2) == high_count(s1));
        assert(high_count(s1) == high_count(prev) + 1);
        assert(low_count(s4) == low_count(s3));
        assert(low_count(s3) == low_count(s2) + 1);
        assert(low_count(s2) == low_count(s1));
        assert(low_count(s1) == low_count(prev));
    }
}

/// Law: alarm pulse counts are exact, however far past its limit the reading
/// was. A mechanical alarm drives the outputs high exactly 3 times and low
/// exactly 3 times; a temperature alarm, exactly 9 times each.
pub proof fn lemma_alarm_pulse_counts(limit: Limit)
    ensures
        high_count(alarm_schedule(limit)) == pulse_pairs(limit),
        low_count(alarm_schedule(limit)) == pulse_pairs(limit),
        alarm_schedule(limit).len() == 4 * pulse_pairs(limit),
{
    lemma_pulse_train_counts(pulse_width_ms(limit), pulse_pairs(limit));
}

/// Builds the output schedule of an alarm of the given kind: exactly
/// `pulse_pairs(limit)` high/low pairs, each phase `pulse_width_ms(limit)`
/// milliseconds wide.
pub fn alarm_actions(limit: Limit) -> (actions: Vec<Action>)
    ensures
        actions@ == alarm_schedule(limit),
{
    let pairs: u64 = match limit {
        Limit::Mechanical => MECHANICAL_PULSE_PAIRS,
        Limit::Temperature => TEMPERATURE_PULSE_PAIRS,
    };
    let width_ms: u64 = match limit {
        Limit::Mechanical => MECHANICAL_PULSE_MS,
        Limit::Temperature => TEMPERATURE_PULSE_MS,
    };
    let mut actions: Vec<Action> = Vec::new();
    let mut done: u64 = 0;
    while done < pairs
        invariant
            done <= pairs,
            pairs == pulse_pairs(limit),
            width_ms == pulse_width_ms(limit),
            actions@ == pulse_train(width_ms, done as nat),
        decreases pairs - done,
    {
        actions.push(Action::OutputsHigh);
        actions.push(Action::Pause(width_ms));
        actions.push(Action::OutputsLow);
        actions.push(Action::Pause(width_ms));
        done = done + 1;
    }
    actions
}

} // verus!
