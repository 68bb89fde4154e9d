//! ESP32 stub of the power and reset controls.
use vstd::prelude::*;
use crate::hal::ErrorInfo;

verus! {

/// Stub power / reset control for ESP32.
pub struct Esp32Control;

impl Esp32Control {
    pub fn new() -> (r: Self)
        ensures
            r == Esp32Control,
    {
        Esp32Control
    }

    /// Powers the robot on or off; the stub always succeeds.
    pub fn power(&mut self, on: bool) -> (r: Result<(), ErrorInfo>)
        ensures
            r is Ok,
    {
        Ok(())
    }

    /// Enters or leaves power-save mode; the stub always succeeds.
    pub fn power_save(&mut self, enabled: bool) -> (r: Result<(), ErrorInfo>)
        ensures
            r is Ok,
    {
        Ok(())
    }

    /// Clears fault latches; the stub always succeeds.
    pub fn reset_errors(&mut self) -> (r: Result<(), ErrorInfo>)
        ensures
            r is Ok,
    {
        Ok(())
    }

    /// Reloads the configuration from flash; the stub always succeeds.
    pub fn reload_config(&mut self) -> (r: Result<(), ErrorInfo>)
        ensures
            r is Ok,
    {
        Ok(())
    }
}

} // verus!
