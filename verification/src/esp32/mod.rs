//! ESP32 HAL implementation stubs.
//!
//! Each sub-module holds a stub struct for one group of HAL operations.  All
//! stubs return fixed default or placeholder values until they are wired to
//! the hardware peripherals.
use vstd::prelude::*;

pub mod cleaning;
pub mod config;
pub mod control;
pub mod dispense;
pub mod sensors;
pub mod status;
pub mod storage;

pub use cleaning::Esp32Cleaning;
pub use config::Esp32Config;
pub use control::Esp32Control;
pub use dispense::Esp32Dispense;
pub use sensors::Esp32Sensors;
pub use status::Esp32Status;
pub use storage::Esp32Storage;

verus! {

/// Composite HAL implementation for ESP32.
///
/// Bundles all sub-struct implementations; each HAL operation is delegated to
/// the sub-struct that owns it.  Construct with [`Esp32Hal::new()`].
pub struct Esp32Hal {
    pub control: Esp32Control,
    pub status: Esp32Status,
    pub config: Esp32Config,
    pub storage: Esp32Storage,
    pub sensors: Esp32Sensors,
    pub dispense: Esp32Dispense,
    pub cleaning: Esp32Cleaning,
}

impl Esp32Hal {
    /// Create a new `Esp32Hal` with all sub-structs initialised to their
    /// default stub state.
    pub fn new() -> (r: Self)
        ensures
            r == (Esp32Hal {
                control: Esp32Control,
                status: Esp32Status,
                config: Esp32Config,
                storage: Esp32Storage,
                sensors: Esp32Sensors,
                dispense: Esp32Dispense,
                cleaning: Esp32Cleaning,
            }),
    {
        Esp32Hal {
            control: Esp32Control::new(),
            status: Esp32Status::new(),
            config: Esp32Config::new(),
            storage: Esp32Storage::new(),
            sensors: Esp32Sensors::new(),
            dispense: Esp32Dispense::new(),
            cleaning: Esp32Cleaning::new(),
        }
    }
}

} // verus!
