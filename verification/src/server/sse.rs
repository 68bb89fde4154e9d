//! Server-Sent Events: which events a poll of the robot's state and job list
//! produces, and how each event is framed.
use vstd::prelude::*;
use crate::hal::{
    job_state_kind, lemma_job_state_tags_distinct, spec_job_state_tag, GlassWaitReason, JobStatus,
    RecoveryAction, RobotState,
};
use crate::server::tokens_equal;
use crate::server::syntax::push_all;
use crate::text::{chars_of, string_of};

verus! {

/// SSE server port.
pub const SSE_PORT: u16 = 9000;

/// Interval between HAL polls, in milliseconds.
pub const POLL_INTERVAL_MS: u64 = 500;

/// A keepalive comment is sent after this many milliseconds without events.
pub const KEEPALIVE_INTERVAL_MS: u64 = 30_000;

/// The HTTP response head that opens an event stream.
pub const SSE_RESPONSE_HEAD: &'static str = "HTTP/1.1 200 OK\r\nContent-Type: text/event-stream\r\nCache-Control: no-cache\r\nConnection: keep-alive\r\n\r\n";

/// The SSE keepalive comment.
pub const SSE_KEEPALIVE: &'static str = ": keepalive\n\n";

/// SSE server over the status and dispense HALs.  Accepts one client at a
/// time; each client receives an initial snapshot followed by change events.
pub struct SseServer<'a, Stat, Disp> {
    pub status: &'a Stat,
    pub dispense: &'a Disp,
}

/// An SSE frame: `event: <type>\ndata: <json>\n\n`.
pub open spec fn spec_sse_frame(event_type: Seq<char>, json: Seq<char>) -> Seq<char> {
    "event: "@ + event_type + "\ndata: "@ + json + "\n\n"@
}

/// Frames one event.
pub fn sse_frame(event_type: &str, json: &str) -> (r: String)
    ensures
        r@ == spec_sse_frame(event_type@, json@),
{
    let mut out: Vec<char> = Vec::new();
    push_all(&mut out, chars_of("event: ").as_slice());
    push_all(&mut out, chars_of(event_type).as_slice());
    push_all(&mut out, chars_of("\ndata: ").as_slice());
    push_all(&mut out, chars_of(json).as_slice());
    push_all(&mut out, chars_of("\n\n").as_slice());
    string_of(out.as_slice())
}

/// A job is reported again when its progress or the name of its state
/// changed.
pub open spec fn spec_job_changed(old: JobStatus, new: JobStatus) -> bool {
    old.progress_pct != new.progress_pct || spec_job_state_tag(old.state) != spec_job_state_tag(
        new.state,
    )
}

/// Whether a job changed between two polls.
pub fn job_changed(old: &JobStatus, new: &JobStatus) -> (r: bool)
    ensures
        r == spec_job_changed(*old, *new),
{
    proof {
        lemma_job_state_tags_distinct(old.state, new.state);
    }
    old.progress_pct != new.progress_pct || !old.state.same_kind(&new.state)
}

/// Index of the first job with id `id`.
pub open spec fn first_job_with_id(jobs: Seq<JobStatus>, id: Seq<char>) -> Option<int>
    decreases jobs.len(),
{
    if jobs.len() == 0 {
        None
    } else if jobs[0].job_id@ == id {
        Some(0)
    } else {
        match first_job_with_id(jobs.skip(1), id) {
            Some(k) => Some(k + 1),
            None => None,
        }
    }
}

pub proof fn lemma_first_job_with_id(jobs: Seq<JobStatus>, id: Seq<char>)
    ensures
        first_job_with_id(jobs, id) matches Some(k) ==> {
            &&& 0 <= k < jobs.len()
            &&& jobs[k].job_id@ == id
            &&& forall|j: int| 0 <= j < k ==> jobs[j].job_id@ != id
        },
        first_job_with_id(jobs, id) is None ==> forall|j: int|
            0 <= j < jobs.len() ==> jobs[j].job_id@ != id,
    decreases jobs.len(),
{
    if jobs.len() > 0 {
        lemma_first_job_with_id(jobs.skip(1), id);
        if jobs[0].job_id@ != id {
            assert forall|j: int| 1 <= j < jobs.len() implies jobs[j] == jobs.skip(1)[j - 1] by {}
        }
    }
}

/// A job in the new snapshot is reported when the previous snapshot has no
/// job with its id, or when the first such job differs from it.
pub open spec fn needs_event(prev: Seq<JobStatus>, job: JobStatus) -> bool {
    match first_job_with_id(prev, job.job_id@) {
        Some(k) => spec_job_changed(prev[k], job),
        None => true,
    }
}

/// Positions in `cur` of the jobs to report, in order.
pub open spec fn event_indices(prev: Seq<JobStatus>, cur: Seq<JobStatus>) -> Seq<usize>
    decreases cur.len(),
{
    if cur.len() == 0 {
        Seq::empty()
    } else if needs_event(prev, cur.last()) {
        event_indices(prev, cur.drop_last()).push((cur.len() - 1) as usize)
    } else {
        event_indices(prev, cur.drop_last())
    }
}

fn find_job(jobs: &Vec<JobStatus>, id: &String) -> (r: Option<usize>)
    ensures
        r matches Some(k) ==> first_job_with_id(jobs@, id@) == Some(k as int) && k < jobs@.len(),
        r is None ==> first_job_with_id(jobs@, id@) is None,
{
    proof {
        lemma_first_job_with_id(jobs@, id@);
    }
    let mut i: usize = 0;
    while i < jobs.len()
        invariant
            i <= jobs@.len(),
            forall|j: int| 0 <= j < i ==> jobs@[j].job_id@ != id@,
            first_job_with_id(jobs@, id@) matches Some(k) ==> {
                &&& 0 <= k < jobs@.len()
                &&& jobs@[k].job_id@ == id@
                &&& forall|j: int| 0 <= j < k ==> jobs@[j].job_id@ != id@
            },
            first_job_with_id(jobs@, id@) is None ==> forall|j: int|
                0 <= j < jobs@.len() ==> jobs@[j].job_id@ != id@,
        decreases jobs@.len() - i,
    {
        if jobs[i].job_id == *id {
            return Some(i);
        }
        i = i + 1;
    }
    None
}

/// Positions of the jobs in `current` that a poll reports.
pub fn jobs_to_emit(prev: &Vec<JobStatus>, current: &Vec<JobStatus>) -> (r: Vec<usize>)
    ensures
        r@ == event_indices(prev@, current@),
{
    let mut out: Vec<usize> = Vec::new();
    let mut i: usize = 0;
    while i < current.len()
        invariant
            i <= current@.len(),
            out@ == event_indices(prev@, current@.take(i as int)),
        decreases current@.len() - i,
    {
        let ghost upto = current@.take(i + 1);
        assert(upto.drop_last() =~= current@.take(i as int));
        assert(upto.last() == current@[i as int]);
        let job = &current[i];
        let emit = match find_job(prev, &job.job_id) {
            Some(k) => job_changed(&prev[k], job),
            None => true,
        };
        if emit {
            out.push(i);
        }
        i = i + 1;
    }
    assert(current@.take(current@.len() as int) =~= current@);
    out
}

/// What one poll sends.
pub struct PollPlan {
    /// Send a `state_change` event.
    pub emit_state: bool,
    /// Send a `job_update` event for each of these positions of the new job list.
    pub job_events: Vec<usize>,
    /// Send a keepalive comment.
    pub keepalive: bool,
}

/// Plans one poll: a state event when the state changed, a job event per
/// new or changed job, and a keepalive when nothing was sent for
/// [`KEEPALIVE_INTERVAL_MS`] milliseconds.
pub fn plan_poll(
    state_changed: bool,
    prev: &Vec<JobStatus>,
    current: &Vec<JobStatus>,
    ms_since_last_event: u64,
) -> (r: PollPlan)
    ensures
        r.emit_state == state_changed,
        r.job_events@ == event_indices(prev@, current@),
        r.keepalive == (!state_changed && event_indices(prev@, current@).len() == 0
            && ms_since_last_event >= KEEPALIVE_INTERVAL_MS),
{
    let job_events = jobs_to_emit(prev, current);
    let sent = state_changed || job_events.len() > 0;
    PollPlan {
        emit_state: state_changed,
        job_events,
        keepalive: !sent && ms_since_last_event >= KEEPALIVE_INTERVAL_MS,
    }
}

/// Job ids are pairwise distinct.
pub open spec fn distinct_job_ids(jobs: Seq<JobStatus>) -> bool {
    forall|i: int, j: int|
        0 <= i < jobs.len() && 0 <= j < jobs.len() && i != j ==> jobs[i].job_id@ != jobs[j].job_id@
}

/// Polling a job list that has not changed reports no job, as long as the
/// job ids are distinct.
pub proof fn lemma_unchanged_jobs_are_quiet(jobs: Seq<JobStatus>)
    requires
        distinct_job_ids(jobs),
    ensures
        event_indices(jobs, jobs).len() == 0,
{
    lemma_quiet_prefix(jobs, jobs.len() as int);
    assert(jobs.take(jobs.len() as int) =~= jobs);
}

proof fn lemma_quiet_prefix(jobs: Seq<JobStatus>, n: int)
    requires
        distinct_job_ids(jobs),
        0 <= n <= jobs.len(),
    ensures
        event_indices(jobs, jobs.take(n)).len() == 0,
    decreases n,
{
    if n > 0 {
        lemma_quiet_prefix(jobs, n - 1);
        let cur = jobs.take(n);
        assert(cur.drop_last() =~= jobs.take(n - 1));
        let job = cur.last();
        assert(job == jobs[n - 1]);
        lemma_first_job_with_id(jobs, job.job_id@);
        let k = first_job_with_id(jobs, job.job_id@);
        assert(k == Some(n - 1));
    }
}

/// A job that was not in the previous list is always reported.
pub proof fn lemma_new_jobs_are_reported(prev: Seq<JobStatus>, cur: Seq<JobStatus>, i: int)
    requires
        0 <= i < cur.len(),
        forall|j: int| 0 <= j < prev.len() ==> prev[j].job_id@ != cur[i].job_id@,
    ensures
        event_indices(prev, cur).contains(i as usize),
    decreases cur.len(),
{
    lemma_first_job_with_id(prev, cur[i].job_id@);
    if i == cur.len() - 1 {
        let r = event_indices(prev, cur);
        assert(r.last() == i as usize);
        assert(r.contains(i as usize));
    } else {
        let shorter = cur.drop_last();
        assert(shorter[i] == cur[i]);
        lemma_new_jobs_are_reported(prev, shorter, i);
        let r0 = event_indices(prev, shorter);
        let k = choose|k: int| 0 <= k < r0.len() && r0[k] == i as usize;
        let r = event_indices(prev, cur);
        if needs_event(prev, cur.last()) {
            assert(r[k] == i as usize);
        }
        assert(r.contains(i as usize));
    }
}

// ---------------------------------------------------------------------------
// State changes
// ---------------------------------------------------------------------------

/// Whether the `f32` with bit pattern `a` is a NaN.
pub open spec fn f32_is_nan(a: u32) -> bool {
    a % 0x8000_0000 > 0x7F80_0000
}

/// `==` on the `f32` values with bit patterns `a` and `b`: a NaN equals
/// nothing, and `0.0` equals `-0.0`.
pub open spec fn f32_eq(a: u32, b: u32) -> bool {
    &&& !f32_is_nan(a)
    &&& !f32_is_nan(b)
    &&& (a == b || (a % 0x8000_0000 == 0 && b % 0x8000_0000 == 0))
}

fn f32_bits_eq(a: u32, b: u32) -> (r: bool)
    ensures
        r == f32_eq(a, b),
{
    let ma = a % 0x8000_0000;
    let mb = b % 0x8000_0000;
    ma <= 0x7F80_0000 && mb <= 0x7F80_0000 && (a == b || (ma == 0 && mb == 0))
}

pub open spec fn same_text_opt(a: Option<String>, b: Option<String>) -> bool {
    match (a, b) {
        (Some(x), Some(y)) => x@ == y@,
        (None, None) => true,
        _ => false,
    }
}

fn text_opt_eq(a: &Option<String>, b: &Option<String>) -> (r: bool)
    ensures
        r == same_text_opt(*a, *b),
{
    match (a, b) {
        (Some(x), Some(y)) => tokens_equal(x.as_str(), y.as_str()),
        (None, None) => true,
        _ => false,
    }
}

/// `==` on glass wait reasons, comparing volumes as `f32` values.
pub open spec fn same_wait_reason(a: GlassWaitReason, b: GlassWaitReason) -> bool {
    match (a, b) {
        (GlassWaitReason::NoGlass, GlassWaitReason::NoGlass) => true,
        (
            GlassWaitReason::TooSmall { detected_volume: d1, required_volume: q1 },
            GlassWaitReason::TooSmall { detected_volume: d2, required_volume: q2 },
        ) => f32_eq(d1, d2) && f32_eq(q1, q2),
        _ => false,
    }
}

/// `==` on robot states: the same variant with equal fields, texts compared
/// by their characters and volumes as `f32` values.
pub open spec fn same_state(a: RobotState, b: RobotState) -> bool {
    match (a, b) {
        (RobotState::Off, RobotState::Off) => true,
        (RobotState::SelfTest, RobotState::SelfTest) => true,
        (RobotState::Provisioning, RobotState::Provisioning) => true,
        (RobotState::Idle, RobotState::Idle) => true,
        (RobotState::Cleaning, RobotState::Cleaning) => true,
        (
            RobotState::WaitingForGlass { job_id: j1, reason: r1, timeout_remaining_secs: t1 },
            RobotState::WaitingForGlass { job_id: j2, reason: r2, timeout_remaining_secs: t2 },
        ) => j1@ == j2@ && same_wait_reason(r1, r2) && t1 == t2,
        (
            RobotState::Working { job_id: j1, progress_pct: p1 },
            RobotState::Working { job_id: j2, progress_pct: p2 },
        ) => j1@ == j2@ && p1 == p2,
        (
            RobotState::DrinkReady { job_id: j1, timeout_remaining_secs: t1 },
            RobotState::DrinkReady { job_id: j2, timeout_remaining_secs: t2 },
        ) => j1@ == j2@ && t1 == t2,
        (
            RobotState::Error {
                code: c1,
                message: m1,
                job_id: j1,
                recoverable: v1,
                recovery: r1,
                timeout_remaining_secs: t1,
            },
            RobotState::Error {
                code: c2,
                message: m2,
                job_id: j2,
                recoverable: v2,
                recovery: r2,
                timeout_remaining_secs: t2,
            },
        ) => c1@ == c2@ && m1@ == m2@ && same_text_opt(j1, j2) && v1 == v2 && r1 == r2 && t1
            == t2,
        _ => false,
    }
}

/// Everything a client sees of a robot state except the glass volumes, as a
/// record: which state it is (0 to 8 in declaration order), its job id, its
/// countdown, its progress, its error code, message, recoverability and
/// recovery, and whether the glass is missing (`Some(true)`) or too small
/// (`Some(false)`).
pub open spec fn state_record(s: RobotState) -> (
    nat,
    Option<Seq<char>>,
    Option<u32>,
    u8,
    Seq<char>,
    Seq<char>,
    bool,
    Option<RecoveryAction>,
    Option<bool>,
) {
    match s {
        RobotState::Off => (0, None, None, 0, Seq::empty(), Seq::empty(), false, None, None),
        RobotState::SelfTest => (1, None, None, 0, Seq::empty(), Seq::empty(), false, None, None),
        RobotState::Provisioning => (2, None, None, 0, Seq::empty(), Seq::empty(), false, None, None),
        RobotState::Idle => (3, None, None, 0, Seq::empty(), Seq::empty(), false, None, None),
        RobotState::Cleaning => (4, None, None, 0, Seq::empty(), Seq::empty(), false, None, None),
        RobotState::WaitingForGlass { job_id, reason, timeout_remaining_secs } => (
            5,
            Some(job_id@),
            timeout_remaining_secs,
            0,
            Seq::empty(),
            Seq::empty(),
            false,
            None,
            Some(reason is NoGlass),
        ),
        RobotState::Working { job_id, progress_pct } => (
            6,
            Some(job_id@),
            None,
            progress_pct,
            Seq::empty(),
            Seq::empty(),
            false,
            None,
            None,
        ),
        RobotState::DrinkReady { job_id, timeout_remaining_secs } => (
            7,
            Some(job_id@),
            timeout_remaining_secs,
            0,
            Seq::empty(),
            Seq::empty(),
            false,
            None,
            None,
        ),
        RobotState::Error { code, message, job_id, recoverable, recovery, timeout_remaining_secs } => (
            8,
            match job_id {
                Some(j) => Some(j@),
                None => None,
            },
            timeout_remaining_secs,
            0,
            code@,
            message@,
            recoverable,
            Some(recovery),
            None,
        ),
    }
}

/// The glass volumes of a state: detected and required, for a glass that is
/// too small.
pub open spec fn state_volumes(s: RobotState) -> Option<(u32, u32)> {
    match s {
        RobotState::WaitingForGlass {
            reason: GlassWaitReason::TooSmall { detected_volume, required_volume },
            ..
        } => Some((detected_volume, required_volume)),
        _ => None,
    }
}

/// A poll reports no state change exactly when the two states show a client
/// the same record, field by field, and the same glass volumes as `f32`
/// values.  In particular any change of the job id, the countdown, the
/// progress or an error field is a change.
pub proof fn lemma_state_change_is_any_field_change(a: RobotState, b: RobotState)
    ensures
        same_state(a, b) <==> (state_record(a) == state_record(b) && match (
            state_volumes(a),
            state_volumes(b),
        ) {
            (Some((d1, q1)), Some((d2, q2))) => f32_eq(d1, d2) && f32_eq(q1, q2),
            (None, None) => true,
            _ => false,
        }),
{
}

/// Whether the robot state changed between two polls, so that a
/// `state_change` event is due.
pub fn state_changed(old: &RobotState, new: &RobotState) -> (r: bool)
    ensures
        r == !same_state(*old, *new),
{
    let same = match (old, new) {
        (RobotState::Off, RobotState::Off) => true,
        (RobotState::SelfTest, RobotState::SelfTest) => true,
        (RobotState::Provisioning, RobotState::Provisioning) => true,
        (RobotState::Idle, RobotState::Idle) => true,
        (RobotState::Cleaning, RobotState::Cleaning) => true,
        (
            RobotState::WaitingForGlass { job_id: j1, reason: r1, timeout_remaining_secs: t1 },
            RobotState::WaitingForGlass { job_id: j2, reason: r2, timeout_remaining_secs: t2 },
        ) => {
            let reasons = match (r1, r2) {
                (GlassWaitReason::NoGlass, GlassWaitReason::NoGlass) => true,
                (
                    GlassWaitReason::TooSmall { detected_volume: d1, required_volume: q1 },
                    GlassWaitReason::TooSmall { detected_volume: d2, required_volume: q2 },
                ) => f32_bits_eq(*d1, *d2) && f32_bits_eq(*q1, *q2),
                _ => false,
            };
            tokens_equal(j1.as_str(), j2.as_str()) && reasons && *t1 == *t2
        },
        (
            RobotState::Working { job_id: j1, progress_pct: p1 },
            RobotState::Working { job_id: j2, progress_pct: p2 },
        ) => tokens_equal(j1.as_str(), j2.as_str()) && *p1 == *p2,
        (
            RobotState::DrinkReady { job_id: j1, timeout_remaining_secs: t1 },
            RobotState::DrinkReady { job_id: j2, timeout_remaining_secs: t2 },
        ) => tokens_equal(j1.as_str(), j2.as_str()) && *t1 == *t2,
        (
            RobotState::Error {
                code: c1,
                message: m1,
                job_id: j1,
                recoverable: v1,
                recovery: r1,
                timeout_remaining_secs: t1,
            },
            RobotState::Error {
                code: c2,
                message: m2,
                job_id: j2,
                recoverable: v2,
                recovery: r2,
                timeout_remaining_secs: t2,
            },
        ) => tokens_equal(c1.as_str(), c2.as_str()) && tokens_equal(m1.as_str(), m2.as_str())
            && text_opt_eq(j1, j2) && *v1 == *v2 && *r1 == *r2 && *t1 == *t2,
        _ => false,
    };
    !same
}

} // verus!
