//! `GET/PATCH /v1/config`, `GET /v1/config/backup` and
//! `POST /v1/config/restore`: the decisions that these endpoints make.
use vstd::prelude::*;
use crate::hal::checksum::{crc32, hex8};
use crate::hal::{crc32_hex, ErrorInfo, JobState, JobStatus, PasswordHasher, RobotConfig};
use crate::server::handlers::Reply;
use crate::text::chars_of;

verus! {

/// Ids of the queued jobs, in list order.
pub open spec fn queued_ids(jobs: Seq<JobStatus>) -> Seq<Seq<char>>
    decreases jobs.len(),
{
    if jobs.len() == 0 {
        Seq::empty()
    } else if jobs.last().state is Queued {
        queued_ids(jobs.drop_last()).push(jobs.last().job_id@)
    } else {
        queued_ids(jobs.drop_last())
    }
}

/// The jobs that a configuration change cancels before it applies: every
/// queued job, in list order.
pub fn queued_job_ids(jobs: &Vec<JobStatus>) -> (r: Vec<String>)
    ensures
        r@.map_values(|s: String| s@) == queued_ids(jobs@),
{
    let mut out: Vec<String> = Vec::new();
    let mut i: usize = 0;
    while i < jobs.len()
        invariant
            i <= jobs@.len(),
            out@.map_values(|s: String| s@) == queued_ids(jobs@.take(i as int)),
        decreases jobs@.len() - i,
    {
        assert(jobs@.take(i + 1).drop_last() =~= jobs@.take(i as int));
        let ghost before = out@;
        match jobs[i].state {
            JobState::Queued => {
                let id = jobs[i].job_id.clone();
                out.push(id);
                assert(out@.map_values(|s: String| s@) =~= before.map_values(|s: String| s@).push(
                    jobs@[i as int].job_id@,
                ));
            },
            _ => {},
        }
        i = i + 1;
    }
    assert(jobs@.take(jobs@.len() as int) =~= jobs@);
    out
}

/// Whether some job is still running; a configuration change waits until
/// none is.
pub fn has_active_job(jobs: &Vec<JobStatus>) -> (r: bool)
    ensures
        r == exists|i: int| 0 <= i < jobs@.len() && (#[trigger] jobs@[i]).state is Active,
{
    let mut i: usize = 0;
    while i < jobs.len()
        invariant
            i <= jobs@.len(),
            forall|j: int| 0 <= j < i ==> !((#[trigger] jobs@[j]).state is Active),
        decreases jobs@.len() - i,
    {
        match jobs[i].state {
            JobState::Active => {
                return true;
            },
            _ => {},
        }
        i = i + 1;
    }
    false
}

/// The configuration that `GET /v1/config` returns: the active one with the
/// admin password hash blanked, so that the hash never leaves the robot.
pub fn redacted_config(cfg: RobotConfig) -> (r: RobotConfig)
    ensures
        r.admin_password@.len() == 0,
        r.liquids == cfg.liquids,
        r.glass_types == cfg.glass_types,
        r.capabilities == cfg.capabilities,
        r.token == cfg.token,
        r.glass_wait_timeout_secs == cfg.glass_wait_timeout_secs,
        r.drink_ready_timeout_secs == cfg.drink_ready_timeout_secs,
{
    let mut out = cfg;
    out.admin_password = String::new();
    out
}

/// A configuration change: `PATCH /v1/config` or `POST /v1/config/restore`.
#[derive(Debug, Clone, Copy, PartialEq, Eq, Structural)]
pub enum ConfigChange {
    Patch,
    Restore,
}

/// One step of applying a new configuration.
#[derive(Debug, Clone, Copy, PartialEq, Eq, Structural)]
pub enum ChangeStep {
    /// Cancel the queued jobs and wait until no job runs.
    Flush,
    /// Apply the configuration to the active (RAM) store.
    Activate,
    /// Persist the configuration to flash.
    Persist,
}

/// What the server does next while applying a configuration change.
#[derive(Debug)]
pub enum ChangeAction {
    Run(ChangeStep),
    /// A step failed: answer with its error; no later step runs.
    Fail(ErrorInfo),
    /// Every step succeeded: answer `200` with the cancelled job ids.
    Finish,
}

/// The steps of a change, in order.  Both first settle the job queue; a
/// patch activates before it persists, a restore persists before it
/// activates.
pub open spec fn change_steps(kind: ConfigChange) -> Seq<ChangeStep> {
    match kind {
        ConfigChange::Patch => seq![ChangeStep::Flush, ChangeStep::Activate, ChangeStep::Persist],
        ConfigChange::Restore => seq![ChangeStep::Flush, ChangeStep::Persist, ChangeStep::Activate],
    }
}

/// The next action of a change of kind `kind`, after `completed` steps have
/// succeeded and the last one (if any) had the outcome `outcome`.
pub fn next_change_action(kind: ConfigChange, completed: usize, outcome: Result<(), ErrorInfo>) -> (r:
    ChangeAction)
    requires
        completed <= 3,
    ensures
        outcome matches Err(e) ==> r == ChangeAction::Fail(e),
        outcome is Ok && completed < 3 ==> r == ChangeAction::Run(change_steps(kind)[completed as int]),
        outcome is Ok && completed == 3 ==> r is Finish,
{
    match outcome {
        Err(e) => ChangeAction::Fail(e),
        Ok(()) => {
            if completed == 3 {
                ChangeAction::Finish
            } else if completed == 0 {
                ChangeAction::Run(ChangeStep::Flush)
            } else {
                match (kind, completed == 1) {
                    (ConfigChange::Patch, true) | (ConfigChange::Restore, false) => ChangeAction::Run(
                        ChangeStep::Activate,
                    ),
                    _ => ChangeAction::Run(ChangeStep::Persist),
                }
            }
        },
    }
}

/// The admin password hash to store on `PATCH /v1/config`: an empty
/// submitted password keeps the current hash; any other password is hashed
/// with `hasher` (the result is what `hasher.hash` returned for it), and a
/// hashing error is passed on.  The plain password is never stored: what is
/// returned for a new password is a hash of it.
pub fn resolve_admin_password<H: PasswordHasher>(
    hasher: &H,
    submitted: &str,
    current_hash: &str,
) -> (r: Result<String, ErrorInfo>)
    ensures
        submitted@.len() == 0 ==> (r matches Ok(s) && s@ == current_hash@),
        submitted@.len() > 0 ==> (r matches Ok(s) ==> hasher.is_hash_of(submitted@, s@)),
        submitted@.len() > 0 ==> call_ensures(H::hash, (hasher, submitted), r),
        r is Err ==> submitted@.len() > 0,
{
    if submitted.is_empty() {
        let s = chars_of(current_hash);
        Ok(crate::text::string_of(s.as_slice()))
    } else {
        hasher.hash(submitted)
    }
}

/// The checksum that a backup of the data `data_json` carries.
pub open spec fn spec_backup_checksum(data_json: Seq<u8>) -> Seq<char> {
    hex8(crc32(data_json))
}

/// Whether a restore accepts `checksum` for the data `data_json`.
pub open spec fn restore_accepts(data_json: Seq<u8>, checksum: Seq<char>) -> bool {
    checksum == hex8(crc32(data_json))
}

/// The checksum that a backup of `data_json` carries.
pub fn backup_checksum(data_json: &[u8]) -> (r: String)
    ensures
        r@ == spec_backup_checksum(data_json@),
{
    crc32_hex(data_json)
}

/// Verifies the checksum of a restored backup against the JSON form of its
/// data.  `None` when they match; otherwise the `422` reply naming the
/// expected and the received checksum.
pub fn check_backup_checksum(data_json: &[u8], received: &str) -> (r: Option<Reply>)
    ensures
        r is None <==> restore_accepts(data_json@, received@),
        r matches Some(reply) ==> (reply matches Reply::ChecksumMismatch { expected, received: got }
            && expected@ == hex8(crc32(data_json@)) && got@ == received@),
{
    let expected = crc32_hex(data_json);
    let got = crate::text::string_of(chars_of(received).as_slice());
    if expected == got {
        None
    } else {
        Some(Reply::ChecksumMismatch { expected, received: got })
    }
}

/// What a backup writes, a restore of the same data accepts; and a backup's
/// checksum is refused for data whose CRC differs.
pub proof fn lemma_backup_restore_agree(data_json: Seq<u8>, other: Seq<u8>)
    ensures
        restore_accepts(data_json, spec_backup_checksum(data_json)),
        crc32(other) != crc32(data_json) ==> !restore_accepts(other, spec_backup_checksum(data_json)),
{
    crate::hal::checksum::lemma_hex8_faithful(crc32(data_json), crc32(other));
}

} // verus!
