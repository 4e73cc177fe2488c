//! The coordination core of a small fixed-function sensor board: a shared
//! sample store written by a periodic analog sampler, a shared digital
//! state vector written by per-line edge monitors, a bounded FIFO event
//! queue feeding one aggregator, button-triggered actuation steps, bounded
//! status messages, and the chase animation for an addressable LED strip.
//!
//! Everything here is the pure decision and data layer: the surrounding
//! program performs the waits and the hardware reads and writes, hands the
//! resulting plain values to these functions, and carries their results
//! back out.

use vstd::prelude::*;

pub mod containers;
pub mod store;
pub mod digital;
pub mod event;
pub mod queue;
pub mod numfmt;
pub mod message;
pub mod animation;
pub mod actuation;
pub mod tasks;

verus! {

/// Number of analog channels read in one sampler cycle.
pub const N_CHANNELS: usize = 8;

/// Number of monitored digital input lines.
pub const N_LINES: usize = 4;

/// Channel of the ambient-light sensor within the sample vector.
pub const AMBIENT_CHANNEL: usize = 0;

/// Readings strictly below this count as dark.
pub const DARK_THRESHOLD: u16 = 9;

/// How long the motor output is held high after a trigger, in milliseconds.
pub const HOLD_MS: u64 = 100;

/// Period of the periodic sampler's tick, in milliseconds.
pub const SAMPLE_TICK_MS: u64 = 10;

/// Period of the animation tick, in milliseconds.
pub const ANIMATION_TICK_MS: u64 = 1000;

/// Number of positions on the LED strip.
pub const N_LED: usize = 11;

/// Spacing of lit positions in the chase pattern.
pub const LED_SPACING: usize = 11;

/// Capacity of the bounded event queue.
pub const QUEUE_CAP: usize = 8;

/// Capacity of a status message, in characters.
pub const MSG_CAP: usize = 64;

} // verus!
