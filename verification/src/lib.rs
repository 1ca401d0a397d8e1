//! A real-time audio level meter core: fixed-point RMS/dB computation,
//! dB-to-percentage normalization, moving-average smoothing, and a
//! level-tracking state machine (min/max/current/trend/alert).
//!
//! All signal values are carried as scaled integers so that every function
//! in this crate is verified:
//! - sample amplitudes in micro-units (`1.0` of full scale = `1_000_000`),
//! - levels (percentages) in milli-percent (`100%` = `100_000`),
//! - decibels at whole-dB resolution.
//!
//! Audio capture, configuration files and terminal rendering are
//! collaborators that live outside this library; they hand in plain sample
//! buffers and timestamps and receive back a [`meter::MeterSnapshot`].
use vstd::prelude::*;

pub mod level;
pub mod moving_average;
pub mod meter;

verus! {

/// Errors reported by the metering core.
#[derive(Clone, Copy, Debug, PartialEq, Eq, Structural)]
pub enum ProcessingError {
    /// A smoothing window of capacity zero was requested at construction.
    InvalidConfiguration,
    /// An empty sample buffer was handed to the RMS calculation.
    InvalidInput,
}

} // verus!
