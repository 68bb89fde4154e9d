//! ESP32 stub of the flash configuration store.
use vstd::prelude::*;
use crate::hal::{ErrorInfo, RobotConfig};

verus! {

/// Stub flash configuration store for ESP32; NVS access is not implemented.
pub struct Esp32Storage;

impl Esp32Storage {
    pub fn new() -> (r: Self)
        ensures
            r == Esp32Storage,
    {
        Esp32Storage
    }

    /// Reads the configuration from NVS flash: not implemented.
    pub fn load_storage_config(&self) -> (r: Result<RobotConfig, ErrorInfo>)
        ensures
            r matches Err(e) && is_not_implemented(e),
    {
        Err(not_implemented())
    }

    /// Writes the configuration to NVS flash: not implemented.
    pub fn store_storage_config(&mut self, cfg: RobotConfig, overwrite: bool) -> (r: Result<(), ErrorInfo>)
        ensures
            r matches Err(e) && is_not_implemented(e),
    {
        Err(not_implemented())
    }
}

/// The error of the stub's storage operations.
pub open spec fn is_not_implemented(e: ErrorInfo) -> bool {
    &&& e.code@ == "NOT_IMPLEMENTED"@
    &&& e.message@ == "StorageHal is not yet implemented for ESP32"@
    &&& e.hint matches Some(h) && h@ == "Wire to NVS flash via esp-idf-svc nvs partition"@
    &&& !e.recoverable
}

/// The error that every storage operation of the stub returns.
pub fn not_implemented() -> (r: ErrorInfo)
    ensures
        is_not_implemented(r),
{
    ErrorInfo {
        code: "NOT_IMPLEMENTED".to_owned(),
        message: "StorageHal is not yet implemented for ESP32".to_owned(),
        hint: Some("Wire to NVS flash via esp-idf-svc nvs partition".to_owned()),
        recoverable: false,
    }
}

} // verus!
