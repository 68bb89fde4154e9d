//! ESP32 stub of the status readout.
use vstd::prelude::*;
use crate::hal::{ErrorInfo, RobotState};

verus! {

/// Stub status readout for ESP32.
pub struct Esp32Status;

impl Esp32Status {
    pub fn new() -> (r: Self)
        ensures
            r == Esp32Status,
    {
        Esp32Status
    }

    /// The stub always reports `Idle`.
    pub fn state(&self) -> (r: RobotState)
        ensures
            r is Idle,
    {
        RobotState::Idle
    }

    /// The stub reports no errors.
    pub fn active_errors(&self) -> (r: Vec<ErrorInfo>)
        ensures
            r@.len() == 0,
    {
        Vec::new()
    }
}

} // verus!
