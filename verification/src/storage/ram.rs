//! RAM-backed configuration store for development and testing.
//!
//! The store keeps one `AdminConfig` in heap memory only; it is lost on
//! reboot.  It is NOT suitable for production — use an NVS or flash-backed
//! store on real hardware.
use vstd::prelude::*;
use crate::hal::{AdminConfig, ErrorInfo, GlassType, VOLUME_100, VOLUME_200};

verus! {

/// RAM-backed configuration store.
///
/// # WARNING
/// Config stored here is lost on reboot. For development and testing only.
/// Do NOT use in production. Replace with a flash-backed store (e.g. ESP32
/// NVS) for any deployment that must survive power cycles.
pub struct RamStorageHal {
    stored: Option<AdminConfig>,
}

/// The error of a backup from an empty store.
pub open spec fn is_no_config_error(e: ErrorInfo) -> bool {
    &&& e.code@ == "NO_CONFIG"@
    &&& e.message@ == "No configuration stored"@
    &&& e.hint matches Some(h) && h@ == "POST /v1/config/restore to provision"@
    &&& e.recoverable
}

/// The development defaults that [`RamStorageHal::new`] starts with: token
/// `"dev"` (change before deploying), no liquids (add via `PATCH /config`),
/// glass types `short` (100) and `long` (200) in abstract volume units, no
/// admin password (the server falls back to the compile-time default), and
/// the default timeouts.
pub open spec fn is_dev_defaults(c: AdminConfig) -> bool {
    &&& c.token@ == "dev"@
    &&& c.liquids@.len() == 0
    &&& c.glass_types@.len() == 2
    &&& c.glass_types@[0].id@ == "short"@
    &&& c.glass_types@[0].volume == VOLUME_100
    &&& c.glass_types@[1].id@ == "long"@
    &&& c.glass_types@[1].volume == VOLUME_200
    &&& c.admin_password@.len() == 0
    &&& c.glass_wait_timeout_secs == 60
    &&& c.drink_ready_timeout_secs == 300
}

impl RamStorageHal {
    /// The configuration held, if any.
    pub closed spec fn contents(&self) -> Option<AdminConfig> {
        self.stored
    }

    /// A store pre-seeded with development defaults.  Because the store is
    /// non-empty, the robot boots into `Idle` without a provisioning step.
    pub fn new() -> (r: Self)
        ensures
            r.contents() matches Some(c) && is_dev_defaults(c),
    {
        let defaults = AdminConfig {
            token: "dev".to_owned(),
            liquids: Vec::new(),
            glass_types: vec![
                GlassType { id: "short".to_owned(), volume: VOLUME_100 },
                GlassType { id: "long".to_owned(), volume: VOLUME_200 },
            ],
            admin_password: String::new(),
            glass_wait_timeout_secs: 60,
            drink_ready_timeout_secs: 300,
        };
        RamStorageHal { stored: Some(defaults) }
    }

    /// An empty store: backups fail with `NO_CONFIG` until a restore.  Use
    /// it to exercise the `Provisioning` boot path.
    pub fn empty() -> (r: Self)
        ensures
            r.contents() is None,
    {
        RamStorageHal { stored: None }
    }

    /// The stored configuration, or the `NO_CONFIG` error when the store is
    /// empty.
    pub fn stored(&self) -> (r: Result<&AdminConfig, ErrorInfo>)
        ensures
            r matches Ok(c) ==> self.contents() == Some(*c),
            r matches Err(e) ==> is_no_config_error(e),
            r is Ok <==> self.contents() is Some,
    {
        match &self.stored {
            Some(c) => Ok(c),
            None => Err(
                ErrorInfo {
                    code: "NO_CONFIG".to_owned(),
                    message: "No configuration stored".to_owned(),
                    hint: Some("POST /v1/config/restore to provision".to_owned()),
                    recoverable: true,
                },
            ),
        }
    }

    /// Replaces the stored configuration.
    pub fn restore(&mut self, cfg: AdminConfig) -> (r: Result<(), ErrorInfo>)
        ensures
            r is Ok,
            final(self).contents() == Some(cfg),
    {
        self.stored = Some(cfg);
        Ok(())
    }
}

} // verus!
