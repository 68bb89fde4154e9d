//! ESP32 stub of the glass and level sensors.
use vstd::prelude::*;
use crate::hal::{ErrorInfo, GlassSensorState, LevelState};

verus! {

/// Stub sensor access for ESP32.
pub struct Esp32Sensors;

impl Esp32Sensors {
    pub fn new() -> (r: Self)
        ensures
            r == Esp32Sensors,
    {
        Esp32Sensors
    }

    /// No sensor is wired: the stub assumes a glass is present, with
    /// confidence 0.0 to mark that nothing was read from hardware.
    pub fn glass_state(&self) -> (r: Result<GlassSensorState, ErrorInfo>)
        ensures
            r matches Ok(g) && g.present && g.glass_type is None && g.confidence == 0,
    {
        Ok(GlassSensorState { present: true, glass_type: None, confidence: 0 })
    }

    /// No level sensor is wired: no readings.
    pub fn level_state(&self) -> (r: Result<Vec<LevelState>, ErrorInfo>)
        ensures
            r matches Ok(v) && v@.len() == 0,
    {
        Ok(Vec::new())
    }
}

} // verus!
