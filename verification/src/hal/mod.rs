//! Data types shared by the HAL implementations and the server, the password
//! hashing interface, and the backup checksum.
use vstd::prelude::*;

pub mod checksum;
pub use checksum::crc32_hex;

verus! {

/// Reason the robot is waiting for a glass in [`RobotState::WaitingForGlass`].
#[derive(Debug, Clone, Copy, PartialEq, Eq, Structural)]
pub enum GlassWaitReason {
    /// No glass detected at the dispense position.
    NoGlass,
    /// A glass was detected but its capacity is smaller than the required
    /// dispense volume.  Both volumes are the IEEE-754 bit patterns of the
    /// `f32` values (`f32::to_bits`).
    TooSmall { detected_volume: u32, required_volume: u32 },
}

/// Describes how a client (or physical user) can recover from
/// [`RobotState::Error`].
#[derive(Debug, Clone, Copy, PartialEq, Eq, Structural)]
pub enum RecoveryAction {
    /// Glass was removed mid-pour; replace it to resume dispensing.
    PutGlassBack,
    /// Drink was not collected; remove the glass to return to `Idle`.
    RemoveGlass,
    /// Firmware or HAL error; call `reset_errors` to recover.
    CallResetErrors,
    /// Unrecoverable error; requires manual intervention.
    NoAction,
}

/// Current state of the robot.
#[derive(Debug, Clone)]
#[allow(inconsistent_fields)]
pub enum RobotState {
    Off,
    SelfTest,
    /// Robot has no stored configuration (first boot or factory reset).
    /// Only admin endpoints are active in this state.
    Provisioning,
    Idle,
    Cleaning,
    /// Robot is waiting for a glass to be placed before dispensing begins.
    WaitingForGlass {
        job_id: String,
        reason: GlassWaitReason,
        /// Seconds until the job is cancelled. `None` when timeout is disabled.
        timeout_remaining_secs: Option<u32>,
    },
    /// Robot is actively dispensing.
    Working { job_id: String, progress_pct: u8 },
    /// Dispensing is complete; waiting for the glass to be removed.
    DrinkReady {
        job_id: String,
        /// Seconds until a `DRINK_ABANDONED` error. `None` when timeout is disabled.
        timeout_remaining_secs: Option<u32>,
    },
    /// An error has occurred.
    Error {
        code: String,
        message: String,
        job_id: Option<String>,
        recoverable: bool,
        recovery: RecoveryAction,
        /// Seconds until job is cancelled (`PutGlassBack` only).
        timeout_remaining_secs: Option<u32>,
    },
}

#[derive(Debug, Clone)]
pub struct ErrorInfo {
    pub code: String,
    pub message: String,
    pub hint: Option<String>,
    pub recoverable: bool,
}

#[derive(Debug, Clone, Copy, PartialEq, Eq, Structural)]
pub enum LevelReporting {
    Binary,
    Decimal,
}

#[derive(Debug, Clone)]
pub struct Capabilities {
    /// Firmware / hardware version string (e.g. `"0.5.0"`).
    pub version: String,
    pub level_reporting: LevelReporting,
    pub glass_typing: bool,
    pub simultaneous_channels: u8,
    /// Maximum number of jobs (running + queued) accepted simultaneously.
    pub max_queue_depth: u8,
    /// `true` if the hardware has a physical button that cancels the active job.
    pub has_cancel_button: bool,
    /// `true` if the hardware has a physical button that powers the robot off.
    pub has_power_button: bool,
}

/// Hardware-agnostic calibration for a single liquid.
#[derive(Debug, Clone, Copy)]
pub struct LiquidCalibration {
    /// Multiplier that the HAL applies to convert abstract volume into
    /// hardware commands, as the IEEE-754 bit pattern of the `f32`.
    pub factor: u32,
}

/// Maps a named cocktail size to a target glass volume.
#[derive(Debug, Clone)]
pub struct GlassType {
    /// Size name, e.g. `"short"`, `"medium"`, `"long"`.
    pub id: String,
    /// Target fill volume in the operator's chosen unit, as the IEEE-754 bit
    /// pattern of the `f32`.
    pub volume: u32,
}

/// Per-ingredient dispenser volume passed to `create_job`.
#[derive(Debug, Clone)]
pub struct DispenseItem {
    /// Identifier of the liquid to dispense (matches `LiquidConfig.id`).
    pub liquid_id: String,
    /// Pre-computed volume in the operator's abstract volume unit, as the
    /// IEEE-754 bit pattern of the `f32`.
    pub amount: u32,
}

#[derive(Debug, Clone)]
pub struct LiquidConfig {
    pub id: String,
    pub name: String,
    pub position: u8,
    pub calibration: LiquidCalibration,
}

/// Admin-owned configuration: persisted to flash, mutated via API.
///
/// Does not include hardware-fixed properties (`Capabilities`); the server
/// merges the two when serving `GET /config`.
#[derive(Debug, Clone)]
pub struct AdminConfig {
    pub liquids: Vec<LiquidConfig>,
    /// Available glass sizes.  The server resolves the target volume for a
    /// dispensing job by matching the requested size against this list.
    pub glass_types: Vec<GlassType>,
    /// Bearer token required to authenticate API requests.  An empty string
    /// makes the server fall back to the compile-time default.
    pub token: String,
    /// Hashed admin password protecting admin-only endpoints (HTTP Basic
    /// Auth), as produced by the active `PasswordHasher`.
    pub admin_password: String,
    /// Seconds to wait for a glass to be placed (or replaced after a
    /// mid-pour removal).  `0` = indefinite.
    pub glass_wait_timeout_secs: u32,
    /// Seconds to wait for a finished drink to be collected.  `0` =
    /// indefinite.
    pub drink_ready_timeout_secs: u32,
}

/// Merged API-facing configuration returned by `GET /config`.
#[derive(Debug, Clone)]
pub struct RobotConfig {
    pub liquids: Vec<LiquidConfig>,
    pub glass_types: Vec<GlassType>,
    pub capabilities: Capabilities,
    pub token: String,
    pub admin_password: String,
    pub glass_wait_timeout_secs: u32,
    pub drink_ready_timeout_secs: u32,
}

/// Payload returned by `GET /config/backup` and accepted by
/// `POST /config/restore`.
#[derive(Debug, Clone)]
pub struct BackupPayload {
    pub data: AdminConfig,
    /// CRC-32 of the JSON form of `data`, as eight lowercase hex digits.
    pub checksum: String,
    pub backed_up_at: String,
}

#[derive(Debug, Clone)]
pub struct GlassSensorState {
    pub present: bool,
    pub glass_type: Option<String>,
    /// Confidence of the reading, as the IEEE-754 bit pattern of the `f32`.
    pub confidence: u32,
}

#[derive(Debug, Clone)]
pub enum LevelState {
    Binary { id: String, ok: bool },
    /// `remaining_ml` is the IEEE-754 bit pattern of the `f32`.
    Decimal { id: String, remaining_ml: u32 },
}

/// The admin-owned part of a merged configuration.
pub open spec fn admin_part(c: RobotConfig) -> AdminConfig {
    AdminConfig {
        liquids: c.liquids,
        glass_types: c.glass_types,
        token: c.token,
        admin_password: c.admin_password,
        glass_wait_timeout_secs: c.glass_wait_timeout_secs,
        drink_ready_timeout_secs: c.drink_ready_timeout_secs,
    }
}

/// The `f32` value 100.0 as its IEEE-754 bit pattern.
pub const VOLUME_100: u32 = 0x42C8_0000;

/// The `f32` value 150.0 as its IEEE-754 bit pattern.
pub const VOLUME_150: u32 = 0x4316_0000;

/// The `f32` value 200.0 as its IEEE-754 bit pattern.
pub const VOLUME_200: u32 = 0x4348_0000;

/// The `f32` value 1.0 as its IEEE-754 bit pattern.
pub const FACTOR_ONE: u32 = 0x3F80_0000;

/// Seconds to wait for a glass when the configuration does not say.
pub fn default_glass_wait_timeout() -> (r: u32)
    ensures
        r == 60,
{
    60
}

/// Seconds to wait for a drink to be collected when the configuration does
/// not say.
pub fn default_drink_ready_timeout() -> (r: u32)
    ensures
        r == 300,
{
    300
}

#[derive(Debug, Clone)]
pub struct JobItem {
    pub liquid_id: String,
    pub parts: u32,
}

#[derive(Debug, Clone)]
pub enum JobState {
    Queued,
    /// Job is currently active (dispensing or waiting for glass).
    Active,
    Done,
    Cancelled,
    Error(String),
}

/// The name under which a job state is reported to clients; an error's
/// message is not part of it.
pub open spec fn spec_job_state_tag(s: JobState) -> Seq<char> {
    match s {
        JobState::Queued => "queued"@,
        JobState::Active => "active"@,
        JobState::Done => "done"@,
        JobState::Cancelled => "cancelled"@,
        JobState::Error(_) => "error"@,
    }
}

/// Which of the five states, ignoring an error's message.
pub open spec fn job_state_kind(s: JobState) -> nat {
    match s {
        JobState::Queued => 0,
        JobState::Active => 1,
        JobState::Done => 2,
        JobState::Cancelled => 3,
        JobState::Error(_) => 4,
    }
}

impl JobState {
    /// The name under which this state is reported to clients.
    pub fn tag(&self) -> (r: &'static str)
        ensures
            r@ == spec_job_state_tag(*self),
    {
        match self {
            JobState::Queued => "queued",
            JobState::Active => "active",
            JobState::Done => "done",
            JobState::Cancelled => "cancelled",
            JobState::Error(_) => "error",
        }
    }

    /// Whether two states are reported alike.
    pub fn same_kind(&self, other: &JobState) -> (r: bool)
        ensures
            r == (job_state_kind(*self) == job_state_kind(*other)),
    {
        match (self, other) {
            (JobState::Queued, JobState::Queued) => true,
            (JobState::Active, JobState::Active) => true,
            (JobState::Done, JobState::Done) => true,
            (JobState::Cancelled, JobState::Cancelled) => true,
            (JobState::Error(_), JobState::Error(_)) => true,
            _ => false,
        }
    }
}

/// Two job states are reported under the same name exactly when they are of
/// the same kind.
pub proof fn lemma_job_state_tags_distinct(a: JobState, b: JobState)
    ensures
        spec_job_state_tag(a) == spec_job_state_tag(b) <==> job_state_kind(a) == job_state_kind(b),
{
    reveal_strlit("queued");
    reveal_strlit("active");
    reveal_strlit("done");
    reveal_strlit("cancelled");
    reveal_strlit("error");
    let ta = spec_job_state_tag(a);
    let tb = spec_job_state_tag(b);
    if job_state_kind(a) != job_state_kind(b) {
        assert(ta.len() != tb.len() || ta[0] != tb[0]);
    }
}

/// Returned by `create_job` on success.
#[derive(Debug, Clone)]
pub struct JobCreated {
    /// Server-generated unique job identifier.
    pub job_id: String,
    /// 1-based position in the queue (1 = next to be dispensed).
    pub queue_position: u8,
}

#[derive(Debug, Clone)]
pub struct JobStatus {
    pub job_id: String,
    /// Human-readable label supplied by the client at creation time.
    pub name: String,
    pub state: JobState,
    pub progress_pct: u8,
}

/// Hashes and verifies admin passwords.
///
/// Implementations are platform-specific.  The trait is synchronous: callers
/// must not hold async locks across a `hash` or `verify` call.
///
/// Each implementation names, in two spec functions, what its hashes are and
/// which passwords it accepts; its `hash` and `verify` must keep to them.
pub trait PasswordHasher {
    /// Whether `hash` is a storable hash of `password` as this hasher makes
    /// them (a salted hasher makes many for one password).
    spec fn is_hash_of(&self, password: Seq<char>, hash: Seq<char>) -> bool;

    /// Whether this hasher accepts `password` against `stored_hash`.
    spec fn accepts(&self, password: Seq<char>, stored_hash: Seq<char>) -> bool;

    /// Hash `password` and return a storable hash string.
    fn hash(&self, password: &str) -> (r: Result<String, ErrorInfo>)
        ensures
            r matches Ok(h) ==> self.is_hash_of(password@, h@),
    ;

    /// Return `true` iff `password` matches `stored_hash`.
    fn verify(&self, password: &str, stored_hash: &str) -> (r: bool)
        ensures
            r == self.accepts(password@, stored_hash@),
    ;
}

} // verus!
