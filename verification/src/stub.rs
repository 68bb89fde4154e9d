//! Development-only implementations that need no hardware.
use vstd::prelude::*;
use crate::hal::{
    admin_part, AdminConfig, Capabilities, ErrorInfo, GlassType, JobCreated, JobStatus,
    LevelReporting, LiquidCalibration, LiquidConfig, PasswordHasher, RobotConfig, RobotState,
    FACTOR_ONE, VOLUME_100, VOLUME_150, VOLUME_200,
};
use crate::server::syntax::push_all;
use crate::server::tokens_equal;
use crate::text::{chars_of, string_of};

verus! {

/// Development-only password hasher.
///
/// Stores passwords in the format `stub$<plaintext>` and verifies them with
/// a constant-time comparison.  Do NOT use in production.
pub struct StubPasswordHasher;

/// The stored form of `password`.
pub open spec fn stub_hash(password: Seq<char>) -> Seq<char> {
    "stub$"@ + password
}

/// Whether `stored` is the stub hash of `password`.
pub open spec fn stub_verifies(password: Seq<char>, stored: Seq<char>) -> bool {
    stored == stub_hash(password)
}

fn stub_hash_string(password: &str) -> (r: String)
    ensures
        r@ == stub_hash(password@),
{
    let mut out: Vec<char> = Vec::new();
    push_all(&mut out, chars_of("stub$").as_slice());
    push_all(&mut out, chars_of(password).as_slice());
    string_of(out.as_slice())
}

impl PasswordHasher for StubPasswordHasher {
    open spec fn is_hash_of(&self, password: Seq<char>, hash: Seq<char>) -> bool {
        hash == stub_hash(password)
    }

    open spec fn accepts(&self, password: Seq<char>, stored_hash: Seq<char>) -> bool {
        stub_verifies(password, stored_hash)
    }

    fn hash(&self, password: &str) -> (r: Result<String, ErrorInfo>)
        ensures
            r matches Ok(h) && h@ == stub_hash(password@),
    {
        Ok(stub_hash_string(password))
    }

    fn verify(&self, password: &str, stored_hash: &str) -> (r: bool)
        ensures
            r == stub_verifies(password@, stored_hash@),
    {
        let expected = stub_hash_string(password);
        tokens_equal(expected.as_str(), stored_hash)
    }
}

/// A password verifies against its own stub hash and against no other
/// password's.
pub proof fn lemma_stub_hash_roundtrip(p: Seq<char>, q: Seq<char>)
    ensures
        stub_verifies(q, stub_hash(p)) <==> q == p,
{
    if stub_hash(q) == stub_hash(p) {
        assert(stub_hash(q).skip("stub$"@.len() as int) =~= q);
        assert(stub_hash(p).skip("stub$"@.len() as int) =~= p);
    }
}

/// Status readout of the development stubs: the robot is always off.
pub struct StubStatusHal;

impl StubStatusHal {
    pub fn state(&self) -> (r: RobotState)
        ensures
            r is Off,
    {
        RobotState::Off
    }

    pub fn active_errors(&self) -> (r: Vec<ErrorInfo>)
        ensures
            r@.len() == 0,
    {
        Vec::new()
    }
}

/// The configuration of the development stubs: one liquid, `water` at
/// position 0 with calibration factor 1.0; glass types `short` (100),
/// `medium` (150) and `long` (200); no token and no admin password; the
/// default timeouts.
pub open spec fn is_dev_stub_admin_config(c: AdminConfig) -> bool {
    &&& c.liquids@.len() == 1
    &&& c.liquids@[0].id@ == "water"@
    &&& c.liquids@[0].name@ == "Water"@
    &&& c.liquids@[0].position == 0
    &&& c.liquids@[0].calibration.factor == FACTOR_ONE
    &&& c.glass_types@.len() == 3
    &&& c.glass_types@[0].id@ == "short"@
    &&& c.glass_types@[0].volume == VOLUME_100
    &&& c.glass_types@[1].id@ == "medium"@
    &&& c.glass_types@[1].volume == VOLUME_150
    &&& c.glass_types@[2].id@ == "long"@
    &&& c.glass_types@[2].volume == VOLUME_200
    &&& c.token@.len() == 0
    &&& c.admin_password@.len() == 0
    &&& c.glass_wait_timeout_secs == 60
    &&& c.drink_ready_timeout_secs == 300
}

/// Active configuration of the development stubs.
pub struct StubConfigHal;

impl StubConfigHal {
    /// The stub configuration, with the capabilities of a single-channel
    /// robot with binary level reporting, no glass typing, a queue of five
    /// and no buttons.
    pub fn get_active_config(&self) -> (r: RobotConfig)
        ensures
            is_dev_stub_admin_config(admin_part(r)),
            r.capabilities.version@ == "0.4.0"@,
            r.capabilities.level_reporting == LevelReporting::Binary,
            !r.capabilities.glass_typing,
            r.capabilities.simultaneous_channels == 1,
            r.capabilities.max_queue_depth == 5,
            !r.capabilities.has_cancel_button,
            !r.capabilities.has_power_button,
    {
        RobotConfig {
            liquids: vec![
                LiquidConfig {
                    id: "water".to_owned(),
                    name: "Water".to_owned(),
                    position: 0,
                    calibration: LiquidCalibration { factor: FACTOR_ONE },
                },
            ],
            glass_types: vec![
                GlassType { id: "short".to_owned(), volume: VOLUME_100 },
                GlassType { id: "medium".to_owned(), volume: VOLUME_150 },
                GlassType { id: "long".to_owned(), volume: VOLUME_200 },
            ],
            capabilities: Capabilities {
                version: "0.4.0".to_owned(),
                level_reporting: LevelReporting::Binary,
                glass_typing: false,
                simultaneous_channels: 1,
                max_queue_depth: 5,
                has_cancel_button: false,
                has_power_button: false,
            },
            token: String::new(),
            admin_password: String::new(),
            glass_wait_timeout_secs: 60,
            drink_ready_timeout_secs: 300,
        }
    }
}

/// Job queue of the development stubs: every job is accepted as next, and
/// none is kept.
pub struct StubDispenseHal;

impl StubDispenseHal {
    pub fn create_job(&mut self, job_id: String, name: String) -> (r: Result<JobCreated, ErrorInfo>)
        ensures
            r matches Ok(c) && c.job_id == job_id && c.queue_position == 1,
    {
        Ok(JobCreated { job_id, queue_position: 1 })
    }

    pub fn list_jobs(&self) -> (r: Vec<JobStatus>)
        ensures
            r@.len() == 0,
    {
        Vec::new()
    }
}

/// The text served at the API root.
pub fn index() -> (r: &'static str)
    ensures
        r@ == "Hello, world!"@,
{
    "Hello, world!"
}

} // verus!
