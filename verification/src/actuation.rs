//! The button-triggered actuation tasks: a motor pulse and an LED toggle,
//! both fanned out from the same physical trigger line.
//!
//! Each task's loop lives with the hardware: it waits for the edge, drives
//! the output, and suspends for the hold time. The decisions — what level
//! to drive, how long to hold, and what to report afterwards — are taken
//! here, so that every transition of the state machine is verified.

use vstd::prelude::*;
use crate::MSG_CAP;
use crate::containers::msg_chars;
use crate::message::motor_message;
use crate::message::motor_message_chars;
use crate::message::led_message;
use crate::message::led_message_chars;
use crate::HOLD_MS;

verus! {

/// Where the motor task stands in its cycle.
#[derive(Clone, Copy, PartialEq, Eq, Structural, Debug)]
pub enum ActuationPhase {
    Idle,
    Active,
}

/// What the motor task must do right after its trigger fires.
#[derive(Clone, Copy, PartialEq, Eq, Structural, Debug)]
pub struct Actuation {
    /// The level to drive the output to.
    pub drive_high: bool,
    /// How long to keep it there before releasing, in milliseconds.
    pub hold_ms: u64,
}

/// What the motor task must do once the hold has elapsed.
pub struct ActuationRelease {
    /// The level to drive the output to.
    pub drive_high: bool,
    /// The status message to forward; `None` while the sample store is
    /// not yet sampled, in which case the cycle completes without a
    /// report rather than failing.
    pub report: Option<heapless::String<MSG_CAP>>,
}

/// The motor task's state machine: `Idle` until a rising edge on the
/// trigger line, then `Active` for exactly the configured hold time.
pub struct MotorTask {
    phase: ActuationPhase,
}

impl MotorTask {
    pub closed spec fn phase(&self) -> ActuationPhase {
        self.phase
    }

    pub fn new() -> (t: MotorTask)
        ensures
            t.phase() is Idle,
    {
        MotorTask { phase: ActuationPhase::Idle }
    }

    /// Whether the task is waiting for its next trigger; the caller tests
    /// this before starting an actuation.
    pub fn is_idle(&self) -> (b: bool)
        ensures
            b == (self.phase() is Idle),
    {
        match self.phase {
            ActuationPhase::Idle => true,
            ActuationPhase::Active => false,
        }
    }

    /// A rising edge on the trigger line while idle: the output goes high
    /// and is to be held there for exactly `HOLD_MS` milliseconds.
    pub fn on_trigger(&mut self) -> (a: Actuation)
        requires
            old(self).phase() is Idle,
        ensures
            final(self).phase() is Active,
            a.drive_high == true,
            a.hold_ms == HOLD_MS,
    {
        self.phase = ActuationPhase::Active;
        Actuation { drive_high: true, hold_ms: HOLD_MS }
    }

    /// The hold has elapsed: the output goes low and exactly one status
    /// message reports the ambient-light reading taken at this moment —
    /// unless no sampler cycle has completed yet, when the cycle ends
    /// without a report.
    pub fn on_hold_elapsed(&mut self, ambient: Option<u16>) -> (r: ActuationRelease)
        requires
            old(self).phase() is Active,
        ensures
            final(self).phase() is Idle,
            r.drive_high == false,
            ambient is Some ==> r.report is Some && msg_chars(r.report->0)
                =~= motor_message_chars(ambient->0),
            ambient is None ==> r.report is None,
    {
        self.phase = ActuationPhase::Idle;
        let report = match ambient {
            Some(lx) => Some(motor_message(lx)),
            None => None,
        };
        ActuationRelease { drive_high: false, report }
    }
}

/// What the LED task must do right after its trigger fires.
pub struct LedUpdate {
    /// The level to drive the LED to.
    pub drive_high: bool,
    /// The status message to forward; `None` while the sample store is
    /// not yet sampled.
    pub report: Option<heapless::String<MSG_CAP>>,
}

/// The LED task's state machine: every rising edge on the trigger line
/// toggles the LED and reports whether the ambient reading counts as dark.
pub struct LedTask {
    led_on: bool,
}

impl LedTask {
    pub closed spec fn led_on(&self) -> bool {
        self.led_on
    }

    pub fn new() -> (t: LedTask)
        ensures
            t.led_on() == false,
    {
        LedTask { led_on: false }
    }

    /// A rising edge on the trigger line: the LED toggles, and one status
    /// message classifies the ambient-light reading taken at this moment —
    /// unless no sampler cycle has completed yet, when the toggle happens
    /// without a report.
    pub fn on_trigger(&mut self, ambient: Option<u16>) -> (r: LedUpdate)
        ensures
            final(self).led_on() == !old(self).led_on(),
            r.drive_high == final(self).led_on(),
            ambient is Some ==> r.report is Some && msg_chars(r.report->0)
                =~= led_message_chars(ambient->0),
            ambient is None ==> r.report is None,
    {
        self.led_on = !self.led_on;
        let report = match ambient {
            Some(lx) => Some(led_message(lx)),
            None => None,
        };
        LedUpdate { drive_high: self.led_on, report }
    }
}

} // verus!
