//! End-to-end sampling cycles through the monitor state machine.
//!
//! Values are fixed-point: one step is 10^-4 of an engineering unit, so an
//! acceleration of 9.8 m/s^2 is 98_000 and a temperature of 20.0 degrees is
//! 200_000.

use motion_alarm::alarm::Action;
use motion_alarm::alarm::Limit;
use motion_alarm::alarm::alarm_actions;
use motion_alarm::monitor::Event;
use motion_alarm::monitor::Monitor;
use motion_alarm::monitor::Phase;
use motion_alarm::readings::Fault;
use motion_alarm::readings::Sample;
use motion_alarm::readings::Vector3;

fn vector(x: i32, y: i32, z: i32) -> Vector3 {
    Vector3 { x, y, z }
}

fn still_sample(acceleration: Vector3, temperature: i32) -> Sample {
    Sample { acceleration, angular_rate: vector(0, 0, 0), temperature }
}

/// Runs the reference-capture phase and checks its settle delay.
fn capture(monitor: &mut Monitor, acceleration: Vector3) {
    let actions = monitor.step(Event::AccelerationCaptured(acceleration));
    assert_eq!(actions, vec![Action::Pause(100)]);
    assert_eq!(monitor.phase, Phase::Evaluation);
}

#[test]
fn sudden_motion_sounds_the_mechanical_alarm() {
    // Reference acceleration (0.0, 0.0, 9.8); sample (0.9, 0.0, 9.8).
    let reference = vector(0, 0, 98_000);
    let mut monitor = Monitor::new(reference, 200_000);
    capture(&mut monitor, reference);

    let actions = monitor.step(Event::Sampled(still_sample(vector(9_000, 0, 98_000), 200_000)));

    let mut expected = alarm_actions(Limit::Mechanical);
    expected.push(Action::Pause(500));
    assert_eq!(actions, expected);
    assert_eq!(monitor.phase, Phase::ReferenceCapture);
}

#[test]
fn warm_drift_below_the_limit_stays_quiet() {
    // Reference temperature 20.0; sample 22.4: a delta of 2.4 is within 2.5.
    let reference = vector(0, 0, 98_000);
    let mut monitor = Monitor::new(reference, 200_000);
    capture(&mut monitor, reference);

    let actions = monitor.step(Event::Sampled(still_sample(reference, 224_000)));
    assert_eq!(actions, vec![Action::Pause(500)]);
}

#[test]
fn overheating_at_the_limit_sounds_the_temperature_alarm() {
    // Reference temperature 20.0; sample 22.5: a delta of exactly 2.5 triggers.
    let reference = vector(0, 0, 98_000);
    let mut monitor = Monitor::new(reference, 200_000);
    capture(&mut monitor, reference);

    let actions = monitor.step(Event::Sampled(still_sample(reference, 225_000)));

    let mut expected = alarm_actions(Limit::Temperature);
    expected.push(Action::Pause(500));
    assert_eq!(actions, expected);
}

#[test]
fn both_alarms_fire_in_one_evaluation() {
    let reference = vector(0, 0, 98_000);
    let mut monitor = Monitor::new(reference, 200_000);
    capture(&mut monitor, reference);

    let actions = monitor.step(Event::Sampled(still_sample(vector(-8_000, 0, 98_000), 230_000)));

    let mut expected = alarm_actions(Limit::Mechanical);
    expected.extend(alarm_actions(Limit::Temperature));
    expected.push(Action::Pause(500));
    assert_eq!(actions, expected);
}

#[test]
fn angular_rate_never_sounds_an_alarm() {
    let reference = vector(0, 0, 98_000);
    let mut monitor = Monitor::new(reference, 200_000);
    capture(&mut monitor, reference);

    let spinning = Sample {
        acceleration: reference,
        angular_rate: vector(i32::MAX, i32::MIN, i32::MAX),
        temperature: 200_000,
    };
    let actions = monitor.step(Event::Sampled(spinning));
    assert_eq!(actions, vec![Action::Pause(500)]);
}

#[test]
fn reference_is_recaptured_every_cycle() {
    // A slow drift: each cycle re-captures the baseline, so a position far
    // from the startup one stays quiet as long as the per-cycle delta is
    // small. Against the startup baseline the same sample would alarm.
    let mut monitor = Monitor::new(vector(0, 0, 98_000), 200_000);

    capture(&mut monitor, vector(50_000, 0, 98_000));
    assert_eq!(monitor.acceleration_reference, vector(50_000, 0, 98_000));
    let actions = monitor.step(Event::Sampled(still_sample(vector(50_000, 0, 98_000), 200_000)));
    assert_eq!(actions, vec![Action::Pause(500)]);

    // The next cycle compares against its own fresh capture, not the drift.
    capture(&mut monitor, vector(0, 0, 98_000));
    let actions = monitor.step(Event::Sampled(still_sample(vector(8_000, 0, 98_000), 200_000)));
    let mut expected = alarm_actions(Limit::Mechanical);
    expected.push(Action::Pause(500));
    assert_eq!(actions, expected);
}

#[test]
fn temperature_reference_is_fixed_at_startup() {
    // Only the acceleration baseline is refreshed each cycle; the
    // temperature baseline keeps its startup value for good.
    let reference = vector(0, 0, 98_000);
    let mut monitor = Monitor::new(reference, 200_000);

    capture(&mut monitor, reference);
    let actions = monitor.step(Event::Sampled(still_sample(reference, 222_000)));
    assert_eq!(actions, vec![Action::Pause(500)]);
    assert_eq!(monitor.temperature_reference, 200_000);

    // Still compared against 20.0, not against the 22.2 seen meanwhile.
    capture(&mut monitor, reference);
    let actions = monitor.step(Event::Sampled(still_sample(reference, 225_000)));
    let mut expected = alarm_actions(Limit::Temperature);
    expected.push(Action::Pause(500));
    assert_eq!(actions, expected);
}

#[test]
fn a_read_failure_halts_the_monitor_for_good() {
    let reference = vector(0, 0, 98_000);
    let mut monitor = Monitor::new(reference, 200_000);
    capture(&mut monitor, reference);

    let actions = monitor.step(Event::ReadFailed(Fault::TemperatureRead));
    assert_eq!(actions, Vec::new());
    assert_eq!(monitor.phase, Phase::Halted(Fault::TemperatureRead));

    // No later event revives it or makes it emit an action, not even a
    // sample far past both limits.
    let wild = still_sample(vector(i32::MAX, 0, 0), i32::MAX);
    let actions = monitor.step(Event::Sampled(wild));
    assert_eq!(actions, Vec::new());
    let actions = monitor.step(Event::AccelerationCaptured(vector(1, 2, 3)));
    assert_eq!(actions, Vec::new());
    assert_eq!(monitor.phase, Phase::Halted(Fault::TemperatureRead));
    assert_eq!(monitor.acceleration_reference, reference);
}

#[test]
fn a_failure_during_capture_also_halts() {
    let reference = vector(0, 0, 98_000);
    let mut monitor = Monitor::new(reference, 200_000);

    let actions = monitor.step(Event::ReadFailed(Fault::AccelerationRead));
    assert_eq!(actions, Vec::new());
    assert_eq!(monitor.phase, Phase::Halted(Fault::AccelerationRead));
}

#[test]
fn an_event_from_the_wrong_phase_changes_nothing() {
    let reference = vector(0, 0, 98_000);
    let mut monitor = Monitor::new(reference, 200_000);

    // A full sample while waiting to capture a reference is ignored.
    let actions = monitor.step(Event::Sampled(still_sample(vector(i32::MAX, 0, 0), 200_000)));
    assert_eq!(actions, Vec::new());
    assert_eq!(monitor.phase, Phase::ReferenceCapture);
    assert_eq!(monitor.acceleration_reference, reference);
}
