//! Motion and temperature alarm monitor.
//!
//! A small control library for a device that polls a 6-axis motion and
//! temperature sensor, compares each reading against a reference baseline
//! captured at the start of every sampling cycle, and sounds an alarm when a
//! deviation exceeds a fixed limit.
//!
//! The library is pure decision logic: readings come in as fixed-point
//! integers, and the outcome of every cycle is a sequence of output actions
//! (drive the outputs high or low, pause for a duration) for the caller to
//! perform on real hardware.

pub mod alarm;
pub mod monitor;
pub mod readings;
