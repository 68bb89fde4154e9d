//! ESP32 stub of the cleaning operations.
use vstd::prelude::*;
use crate::hal::ErrorInfo;

verus! {

/// Stub cleaning control for ESP32.
pub struct Esp32Cleaning;

impl Esp32Cleaning {
    pub fn new() -> (r: Self)
        ensures
            r == Esp32Cleaning,
    {
        Esp32Cleaning
    }

    /// Starts the cleaning program; the stub always succeeds.
    pub fn start_cleaning(&mut self) -> (r: Result<(), ErrorInfo>)
        ensures
            r is Ok,
    {
        Ok(())
    }

    /// Stops the cleaning program; the stub always succeeds.
    pub fn stop_cleaning(&mut self) -> (r: Result<(), ErrorInfo>)
        ensures
            r is Ok,
    {
        Ok(())
    }
}

} // verus!
