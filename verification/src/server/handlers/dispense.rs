//! `POST/GET /v1/dispense/jobs` and `GET/POST /v1/dispense/jobs/{job_id}`:
//! job ids, timeouts and replies.
use vstd::prelude::*;
use crate::hal::{ErrorInfo, JobCreated};
use crate::server::handlers::Reply;
use crate::server::tokens_equal;
use crate::text::{chars_of, string_of};

verus! {

/// Default job timeout (30 seconds) when not specified in the request.
pub const DEFAULT_TIMEOUT_MS: u64 = 30_000;

/// Maximum length of the sanitized name prefix in the generated `job_id`.
pub const MAX_NAME_PREFIX_LEN: usize = 32;

/// Deciseconds in a day.
pub const DECISECONDS_PER_DAY: u64 = 864_000;

/// The timeout of a job: the requested one, or the default.
pub fn job_timeout_ms(requested: Option<u64>) -> (r: u64)
    ensures
        r == match requested {
            Some(t) => t,
            None => DEFAULT_TIMEOUT_MS,
        },
{
    match requested {
        Some(t) => t,
        None => DEFAULT_TIMEOUT_MS,
    }
}

/// The uppercase hexadecimal digit for `n < 16`.
pub open spec fn upper_hex(n: nat) -> u8 {
    if n < 10 {
        (48 + n) as u8
    } else {
        (55 + n) as u8
    }
}

/// Convert a nibble (0–15) to an uppercase hex ASCII byte.
pub fn hex_nibble(n: u8) -> (r: u8)
    requires
        n < 16,
    ensures
        r == upper_hex(n as nat),
{
    if n < 10 {
        48 + n
    } else {
        55 + n
    }
}

pub open spec fn is_ascii_alphanumeric(c: char) -> bool {
    ('0' <= c && c <= '9') || ('a' <= c && c <= 'z') || ('A' <= c && c <= 'Z')
}

/// A name character as it appears in a job id: ASCII letters, digits, space,
/// `_` and `-` stay, anything else becomes `_`.
pub open spec fn sanitize(c: char) -> char {
    if is_ascii_alphanumeric(c) || c == ' ' || c == '_' || c == '-' {
        c
    } else {
        '_'
    }
}

/// The first (at most) 32 characters of `name`, sanitized.
pub open spec fn job_name_prefix(name: Seq<char>) -> Seq<char> {
    let n = if name.len() < MAX_NAME_PREFIX_LEN {
        name.len()
    } else {
        MAX_NAME_PREFIX_LEN as nat
    };
    name.take(n as int).map_values(|c: char| sanitize(c))
}

/// The time-of-day component: ticks modulo a day's deciseconds, truncated
/// to 16 bits.
pub open spec fn job_time_code(ticks: u64) -> u16 {
    (ticks % DECISECONDS_PER_DAY) as u16
}

/// Four uppercase hexadecimal digits of `d`.
pub open spec fn hex4(d: u16) -> Seq<char> {
    seq![
        upper_hex((d / 4096) as nat) as char,
        upper_hex(((d / 256) % 16) as nat) as char,
        upper_hex(((d / 16) % 16) as nat) as char,
        upper_hex((d % 16) as nat) as char,
    ]
}

/// `<sanitized name>-01<TIME>`: the day code is fixed at `01` (day 1,
/// month 0) because no calendar clock is available, and `<TIME>` is
/// [`job_time_code`] as four uppercase hexadecimal digits.
pub open spec fn spec_job_id(name: Seq<char>, ticks: u64) -> Seq<char> {
    job_name_prefix(name) + seq!['-', '0', '1'] + hex4(job_time_code(ticks))
}

fn sanitize_char(c: char) -> (r: char)
    ensures
        r == sanitize(c),
{
    if ('0' <= c && c <= '9') || ('a' <= c && c <= 'z') || ('A' <= c && c <= 'Z') || c == ' ' || c
        == '_' || c == '-' {
        c
    } else {
        '_'
    }
}

/// Generate a job id from a human-readable `name` and the monotonic clock
/// reading `ticks`.
///
/// Format: `<sanitized_name>-<DD><TIME>`
/// - `<sanitized_name>`: non-`[A-Za-z0-9 _-]` chars replaced by `_`,
///   truncated to `MAX_NAME_PREFIX_LEN` chars.
/// - `<DD>`: `day + month * 3` as 2 uppercase hex digits; `01` while no
///   real-time clock is available.
/// - `<TIME>`: `ticks` modulo a day's deciseconds, truncated to 16 bits, as
///   4 uppercase hex digits.
pub fn generate_job_id(name: &str, ticks: u64) -> (r: String)
    ensures
        r@ == spec_job_id(name@, ticks),
{
    let cs = chars_of(name);
    let mut id: Vec<char> = Vec::new();
    let mut i: usize = 0;
    while i < cs.len() && i < MAX_NAME_PREFIX_LEN
        invariant
            i <= cs@.len(),
            i <= MAX_NAME_PREFIX_LEN,
            id@ == cs@.take(i as int).map_values(|c: char| sanitize(c)),
        decreases cs@.len() - i,
    {
        id.push(sanitize_char(cs[i]));
        i = i + 1;
        assert(id@ =~= cs@.take(i as int).map_values(|c: char| sanitize(c)));
    }
    assert(id@ =~= job_name_prefix(name@));
    let deciseconds = (ticks % DECISECONDS_PER_DAY) as u16;
    let dd_encoded: u8 = 1;
    let ghost prefix = id@;
    id.push('-');
    assert((dd_encoded >> 4u8) == 0u8 && (dd_encoded & 0x0Fu8) == 1u8) by (bit_vector)
        requires
            dd_encoded == 1u8,
    ;
    id.push(hex_nibble(dd_encoded >> 4) as char);
    id.push(hex_nibble(dd_encoded & 0x0F) as char);
    let d = deciseconds;
    assert(((d >> 12u16) & 0x0Fu16) == d / 4096 && ((d >> 8u16) & 0x0Fu16) == (d / 256) % 16 && ((d
        >> 4u16) & 0x0Fu16) == (d / 16) % 16 && (d & 0x0Fu16) == d % 16) by (bit_vector);
    id.push(hex_nibble(((d >> 12) & 0x0F) as u8) as char);
    id.push(hex_nibble(((d >> 8) & 0x0F) as u8) as char);
    id.push(hex_nibble(((d >> 4) & 0x0F) as u8) as char);
    id.push(hex_nibble((d & 0x0F) as u8) as char);
    assert(id@ =~= spec_job_id(name@, ticks));
    string_of(id.as_slice())
}

/// Two ids generated for the same name are equal exactly when the clock
/// readings share their time code.
pub proof fn lemma_job_ids_distinguish_time(name: Seq<char>, t1: u64, t2: u64)
    ensures
        spec_job_id(name, t1) == spec_job_id(name, t2) <==> job_time_code(t1) == job_time_code(t2),
{
    let a = spec_job_id(name, t1);
    let b = spec_job_id(name, t2);
    let d1 = job_time_code(t1);
    let d2 = job_time_code(t2);
    let k: int = job_name_prefix(name).len() as int + 3;
    if a == b {
        assert(a[k] == b[k] && a[k + 1] == b[k + 1] && a[k + 2] == b[k + 2] && a[k + 3] == b[k + 3]);
        assert(d1 == (d1 / 4096) * 4096 + ((d1 / 256) % 16) * 256 + ((d1 / 16) % 16) * 16 + d1 % 16)
            by (nonlinear_arith);
        assert(d2 == (d2 / 4096) * 4096 + ((d2 / 256) % 16) * 256 + ((d2 / 16) % 16) * 16 + d2 % 16)
            by (nonlinear_arith);
        assert(d1 / 4096 < 16 && d2 / 4096 < 16);
    }
}

/// Two jobs of one name get different ids when their clock readings fall in
/// the same day and are less than 65536 ticks apart.  The time code has 16
/// bits, so readings 65536 ticks apart (such as 0 and 65536) share it.
pub proof fn lemma_job_ids_unique_within_span(name: Seq<char>, t1: u64, t2: u64)
    requires
        t1 < t2,
        t2 - t1 < 65536,
        t1 / DECISECONDS_PER_DAY == t2 / DECISECONDS_PER_DAY,
    ensures
        spec_job_id(name, t1) != spec_job_id(name, t2),
{
    lemma_job_ids_distinguish_time(name, t1, t2);
    let r1: u64 = t1 % DECISECONDS_PER_DAY;
    let r2: u64 = t2 % DECISECONDS_PER_DAY;
    assert(r2 - r1 == t2 - t1) by {
        vstd::arithmetic::div_mod::lemma_fundamental_div_mod(t1 as int, DECISECONDS_PER_DAY as int);
        vstd::arithmetic::div_mod::lemma_fundamental_div_mod(t2 as int, DECISECONDS_PER_DAY as int);
    }
    assert(r1 < r2 && r2 - r1 < 65536 ==> (r1 as u16) != (r2 as u16)) by (bit_vector);
}

/// The reply to `POST /v1/dispense/jobs` once the HAL has answered: `201`
/// with the created job, `503` when the HAL reports `QUEUE_FULL`, and `500`
/// with the HAL's error otherwise.
pub fn create_job_reply(result: Result<JobCreated, ErrorInfo>) -> (r: Reply)
    ensures
        result matches Ok(c) ==> r == Reply::Created(c),
        result matches Err(e) ==> (if e.code@ == "QUEUE_FULL"@ {
            r is QueueFull
        } else {
            r == Reply::HalError(e)
        }),
{
    match result {
        Ok(created) => Reply::Created(created),
        Err(e) => {
            if tokens_equal(e.code.as_str(), "QUEUE_FULL") {
                Reply::QueueFull
            } else {
                Reply::HalError(e)
            }
        },
    }
}

/// Whether the glass type at `i` is the first one with the id `q`.
pub open spec fn first_with_id(ids: Seq<String>, q: Seq<char>, i: int) -> bool {
    &&& 0 <= i < ids.len()
    &&& ids[i]@ == q
    &&& forall|j: int| 0 <= j < i ==> ids[j]@ != q
}

/// Whether no glass type has the id `q`.
pub open spec fn no_glass_with_id(ids: Seq<String>, q: Seq<char>) -> bool {
    forall|j: int| 0 <= j < ids.len() ==> ids[j]@ != q
}

/// Chooses the glass type that a job is poured into, by its position among
/// the configured `glass_ids`: the first whose id is the requested one;
/// without a request, or when no id matches, the first configured one.
pub fn choose_glass(glass_ids: &Vec<String>, requested: Option<&str>) -> (r: Option<usize>)
    ensures
        r is None <==> glass_ids@.len() == 0,
        r matches Some(i) ==> match requested {
            Some(q) => first_with_id(glass_ids@, q@, i as int) || (i == 0 && no_glass_with_id(
                glass_ids@,
                q@,
            )),
            None => i == 0,
        },
{
    if glass_ids.len() == 0 {
        return None;
    }
    match requested {
        None => Some(0),
        Some(q) => {
            let mut i: usize = 0;
            while i < glass_ids.len()
                invariant
                    i <= glass_ids@.len(),
                    requested == Some(q),
                    glass_ids@.len() > 0,
                    forall|j: int| 0 <= j < i ==> glass_ids@[j]@ != q@,
                decreases glass_ids@.len() - i,
            {
                let id: &String = &glass_ids[i];
                if tokens_equal(id.as_str(), q) {
                    return Some(i);
                }
                i = i + 1;
            }
            Some(0)
        },
    }
}

} // verus!
