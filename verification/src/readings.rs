//! Sensor readings and the fixed deviation limits.
//!
//! Every engineering value is carried as a fixed-point integer: one step is
//! one ten-thousandth of an engineering unit (10^-4 m/s^2 for acceleration,
//! 10^-4 rad/s for angular rate, 10^-4 degrees Celsius for temperature).
//! An acceleration of 9.8 m/s^2 is therefore written 98_000.

use vstd::prelude::*;

verus! {

/// Deviation limit for mechanical stress: 0.8 m/s^2 on the X axis,
/// in ten-thousandths of a unit.
pub const MECHANICAL_LIMIT: i32 = 8_000;

/// Deviation limit for overheating: 2.5 degrees Celsius,
/// in ten-thousandths of a degree.
pub const TEMPERATURE_LIMIT: i32 = 25_000;

/// A three-component reading, such as an acceleration or angular-rate vector.
#[derive(Clone, Copy, Debug, PartialEq, Eq, Structural)]
pub struct Vector3 {
    pub x: i32,
    pub y: i32,
    pub z: i32,
}

/// One full reading taken during an evaluation phase.
#[derive(Clone, Copy, Debug, PartialEq, Eq, Structural)]
pub struct Sample {
    pub acceleration: Vector3,
    pub angular_rate: Vector3,
    pub temperature: i32,
}

/// Why a sensor read, or the startup initialization, failed.
/// Every fault is fatal: the monitor halts and is never resumed.
#[derive(Clone, Copy, Debug, PartialEq, Eq, Structural)]
pub enum Fault {
    Initialization,
    AccelerationRead,
    AngularRateRead,
    TemperatureRead,
}

/// The magnitude of the signed difference between a sample component and the
/// corresponding reference component.
pub open spec fn delta_magnitude(sample: int, reference: int) -> int {
    if sample >= reference {
        sample - reference
    } else {
        reference - sample
    }
}

/// The mechanical alarm fires exactly when the X-axis acceleration has moved
/// at least `MECHANICAL_LIMIT` away from the reference. The comparison is
/// inclusive: a delta exactly at the limit triggers.
pub open spec fn mechanical_alarm_fires(sample_x: int, reference_x: int) -> bool {
    delta_magnitude(sample_x, reference_x) >= MECHANICAL_LIMIT
}

/// The temperature alarm fires exactly when the temperature has moved at
/// least `TEMPERATURE_LIMIT` away from the reference. The comparison is
/// inclusive: a delta exactly at the limit triggers.
pub open spec fn temperature_alarm_fires(sample_temp: int, reference_temp: int) -> bool {
    delta_magnitude(sample_temp, reference_temp) >= TEMPERATURE_LIMIT
}

/// Decides whether an X-axis acceleration reading deviates far enough from
/// the reference to count as mechanical stress.
pub fn mechanical_limit_exceeded(sample_x: i32, reference_x: i32) -> (fires: bool)
    ensures
        fires == mechanical_alarm_fires(sample_x as int, reference_x as int),
{
    let delta: i64 = (sample_x as i64) - (reference_x as i64);
    let magnitude: i64 = if delta < 0 {
        -delta
    } else {
        delta
    };
    magnitude >= (MECHANICAL_LIMIT as i64)
}

/// Decides whether a temperature reading deviates far enough from the
/// reference to count as overheating.
pub fn temperature_limit_exceeded(sample_temp: i32, reference_temp: i32) -> (fires: bool)
    ensures
        fires == temperature_alarm_fires(sample_temp as int, reference_temp as int),
{
    let delta: i64 = (sample_temp as i64) - (reference_temp as i64);
    let magnitude: i64 = if delta < 0 {
        -delta
    } else {
        delta
    };
    magnitude >= (TEMPERATURE_LIMIT as i64)
}

} // verus!
