//! ESP32 stub of the active configuration.
use vstd::prelude::*;
use crate::hal::{
    admin_part, AdminConfig, Capabilities, ErrorInfo, GlassType, LevelReporting, RobotConfig, VOLUME_100,
    VOLUME_150, VOLUME_200,
};

verus! {

/// Stub active-configuration store for ESP32.
pub struct Esp32Config;

impl Esp32Config {
    pub fn new() -> (r: Self)
        ensures
            r == Esp32Config,
    {
        Esp32Config
    }
}

/// The hardware capabilities that the ESP32 stub reports.
pub fn stub_capabilities() -> (r: Capabilities)
    ensures
        r.version@ == "0.6.0"@,
        r.level_reporting == LevelReporting::Binary,
        !r.glass_typing,
        r.simultaneous_channels == 1,
        r.max_queue_depth == 5,
        !r.has_cancel_button,
        !r.has_power_button,
{
    Capabilities {
        version: "0.6.0".to_owned(),
        level_reporting: LevelReporting::Binary,
        glass_typing: false,
        simultaneous_channels: 1,
        max_queue_depth: 5,
        has_cancel_button: false,
        has_power_button: false,
    }
}

/// The admin configuration of the stub: no liquids, glass types `short`
/// (100), `medium` (150) and `long` (200), no token, no admin password, and
/// the default timeouts.
pub open spec fn is_stub_admin_config(c: AdminConfig) -> bool {
    &&& c.liquids@.len() == 0
    &&& c.glass_types@.len() == 3
    &&& c.glass_types@[0].id@ == "short"@
    &&& c.glass_types@[0].volume == VOLUME_100
    &&& c.glass_types@[1].id@ == "medium"@
    &&& c.glass_types@[1].volume == VOLUME_150
    &&& c.glass_types@[2].id@ == "long"@
    &&& c.glass_types@[2].volume == VOLUME_200
    &&& c.token@.len() == 0
    &&& c.admin_password@.len() == 0
    &&& c.glass_wait_timeout_secs == 60
    &&& c.drink_ready_timeout_secs == 300
}

pub fn default_admin_config() -> (r: AdminConfig)
    ensures
        is_stub_admin_config(r),
{
    AdminConfig {
        liquids: Vec::new(),
        glass_types: vec![
            GlassType { id: "short".to_owned(), volume: VOLUME_100 },
            GlassType { id: "medium".to_owned(), volume: VOLUME_150 },
            GlassType { id: "long".to_owned(), volume: VOLUME_200 },
        ],
        token: String::new(),
        admin_password: String::new(),
        glass_wait_timeout_secs: 60,
        drink_ready_timeout_secs: 300,
    }
}

impl Esp32Config {
    /// The active configuration: the stub's admin configuration merged with
    /// its capabilities.
    pub fn get_active_config(&self) -> (r: RobotConfig)
        ensures
            is_stub_admin_config(admin_part(r)),
            r.capabilities.version@ == "0.6.0"@,
            r.capabilities.level_reporting == LevelReporting::Binary,
            !r.capabilities.glass_typing,
            r.capabilities.simultaneous_channels == 1,
            r.capabilities.max_queue_depth == 5,
            !r.capabilities.has_cancel_button,
            !r.capabilities.has_power_button,
    {
        let admin = default_admin_config();
        RobotConfig {
            liquids: admin.liquids,
            glass_types: admin.glass_types,
            capabilities: stub_capabilities(),
            token: admin.token,
            admin_password: admin.admin_password,
            glass_wait_timeout_secs: admin.glass_wait_timeout_secs,
            drink_ready_timeout_secs: admin.drink_ready_timeout_secs,
        }
    }

    /// Applies a configuration; the stub accepts every one.
    pub fn update_active_config(&mut self, cfg: AdminConfig) -> (r: Result<(), ErrorInfo>)
        ensures
            r is Ok,
    {
        Ok(())
    }
}

} // verus!
