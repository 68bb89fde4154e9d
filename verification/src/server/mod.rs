//! Request authentication, routing and the provisioning gate of the REST
//! API, and the containers that hold the HAL implementations.
use vstd::prelude::*;
use vstd::utf8::*;
use crate::hal::{PasswordHasher, RobotState};
use crate::server::http::{
    find_header, header_views, spec_basic_auth_password, basic_auth_password, HttpRequest,
};
use crate::server::syntax::copy_range;
use crate::text::{chars_of, string_of};

pub mod base64;
pub mod handlers;
pub mod http;
pub mod sse;
pub mod syntax;

verus! {

/// Default Bearer token used when the configured token is empty.
/// Operators MUST change this via `PATCH /v1/config` before deployment.
pub const DEFAULT_TOKEN: &'static str = "changeme";

/// Default admin password used when no admin password hash is stored.
/// Operators MUST change this via `PATCH /v1/config` before deployment.
pub const DEFAULT_ADMIN_PASSWORD: &'static str = "changeme";

/// Compare two token strings in constant time to prevent timing-based
/// enumeration. Returns `true` only if both strings are identical in length
/// and content. The XOR accumulator ensures no early exit on the first
/// differing byte.
pub fn tokens_equal(a: &str, b: &str) -> (r: bool)
    ensures
        r == (a@ == b@),
{
    let x = a.as_bytes();
    let y = b.as_bytes();
    proof {
        encode_utf8_decode_utf8(a@);
        encode_utf8_decode_utf8(b@);
    }
    if x.len() != y.len() {
        return false;
    }
    let mut diff: u8 = 0;
    let mut i: usize = 0;
    assert(x@.take(0) =~= y@.take(0));
    while i < x.len()
        invariant
            i <= x@.len(),
            x@.len() == y@.len(),
            (diff == 0) == (x@.take(i as int) == y@.take(i as int)),
        decreases x@.len() - i,
    {
        let p = x[i];
        let q = y[i];
        assert((diff | (p ^ q)) == 0 <==> (diff == 0 && p == q)) by (bit_vector);
        proof {
            let xs = x@.take(i + 1);
            let ys = y@.take(i + 1);
            assert(xs.drop_last() =~= x@.take(i as int));
            assert(ys.drop_last() =~= y@.take(i as int));
            if x@.take(i as int) == y@.take(i as int) && p == q {
                assert(xs =~= ys);
            }
            if xs == ys {
                assert(xs[i as int] == ys[i as int]);
            }
        }
        diff = diff | (p ^ q);
        i = i + 1;
    }
    assert(x@.take(x@.len() as int) =~= x@);
    assert(y@.take(y@.len() as int) =~= y@);
    diff == 0
}

// ---------------------------------------------------------------------------
// Route tables
// ---------------------------------------------------------------------------

/// Routes that require HTTP Basic Auth with the admin password.
/// All other routes require a Bearer token.
pub open spec fn spec_admin_routes() -> Seq<(Seq<char>, Seq<char>)> {
    seq![
        ("PATCH"@, "/v1/config"@),
        ("GET"@, "/v1/config/backup"@),
        ("POST"@, "/v1/config/restore"@),
        ("POST"@, "/v1/control/power"@),
        ("POST"@, "/v1/control/power-save"@),
        ("POST"@, "/v1/control/reset"@),
        ("POST"@, "/v1/cleaning/start"@),
        ("POST"@, "/v1/cleaning/stop"@),
    ]
}

/// Non-admin routes that remain active while the robot is provisioning.
pub open spec fn spec_provisioning_allowed() -> Seq<(Seq<char>, Seq<char>)> {
    seq![("GET"@, "/v1/status"@), ("GET"@, "/v1/config"@)]
}

pub open spec fn views_of_routes(v: Seq<(&str, &str)>) -> Seq<(Seq<char>, Seq<char>)> {
    v.map_values(|p: (&str, &str)| (p.0@, p.1@))
}

/// The admin routes as `(method, path)` pairs.
pub fn admin_routes() -> (r: Vec<(&'static str, &'static str)>)
    ensures
        views_of_routes(r@) == spec_admin_routes(),
{
    let r = vec![
        ("PATCH", "/v1/config"),
        ("GET", "/v1/config/backup"),
        ("POST", "/v1/config/restore"),
        ("POST", "/v1/control/power"),
        ("POST", "/v1/control/power-save"),
        ("POST", "/v1/control/reset"),
        ("POST", "/v1/cleaning/start"),
        ("POST", "/v1/cleaning/stop"),
    ];
    assert(views_of_routes(r@) =~= spec_admin_routes());
    r
}

/// The routes that stay open while provisioning, as `(method, path)` pairs.
pub fn provisioning_allowed_routes() -> (r: Vec<(&'static str, &'static str)>)
    ensures
        views_of_routes(r@) == spec_provisioning_allowed(),
{
    let r = vec![("GET", "/v1/status"), ("GET", "/v1/config")];
    assert(views_of_routes(r@) =~= spec_provisioning_allowed());
    r
}

fn route_listed(table: &Vec<(&'static str, &'static str)>, method: &str, path: &str) -> (r: bool)
    ensures
        r == views_of_routes(table@).contains((method@, path@)),
{
    let ghost vs = views_of_routes(table@);
    let mut i: usize = 0;
    while i < table.len()
        invariant
            i <= table@.len(),
            vs == views_of_routes(table@),
            forall|j: int| 0 <= j < i ==> vs[j] != (method@, path@),
        decreases table@.len() - i,
    {
        let (m, p) = table[i];
        if tokens_equal(m, method) && tokens_equal(p, path) {
            assert(vs[i as int] == (method@, path@));
            return true;
        }
        i = i + 1;
    }
    false
}

/// Whether `(method, path)` is an admin route.
pub fn is_admin_route(method: &str, path: &str) -> (r: bool)
    ensures
        r == spec_admin_routes().contains((method@, path@)),
{
    route_listed(&admin_routes(), method, path)
}

/// Whether `(method, path)` stays open while the robot is provisioning.
pub fn is_provisioning_allowed(method: &str, path: &str) -> (r: bool)
    ensures
        r == spec_provisioning_allowed().contains((method@, path@)),
{
    route_listed(&provisioning_allowed_routes(), method, path)
}

// ---------------------------------------------------------------------------
// Authentication
// ---------------------------------------------------------------------------

/// The token of an `Authorization: Bearer <token>` header value.
pub open spec fn bearer_token_of(h: Seq<char>) -> Option<Seq<char>> {
    if h.len() >= 7 && h.take(7) == "Bearer "@ {
        Some(h.skip(7))
    } else {
        None
    }
}

/// The token that Bearer requests must present.
pub open spec fn effective_token(token: Seq<char>) -> Seq<char> {
    if token.len() == 0 {
        DEFAULT_TOKEN@
    } else {
        token
    }
}

/// A non-admin request is authorized when its `Authorization` header carries
/// the effective token as a Bearer token.
pub open spec fn bearer_authorized(hs: Seq<(Seq<char>, Seq<char>)>, token: Seq<char>) -> bool {
    match find_header(hs, "Authorization"@) {
        Some(h) => match bearer_token_of(h) {
            Some(t) => t == effective_token(token),
            None => false,
        },
        None => false,
    }
}

/// The password offered through HTTP Basic authorization, if any.
pub open spec fn offered_admin_password(hs: Seq<(Seq<char>, Seq<char>)>) -> Option<Seq<char>> {
    match find_header(hs, "Authorization"@) {
        Some(h) => spec_basic_auth_password(h),
        None => None,
    }
}

/// A Bearer credential is never taken for a Basic one, so presenting the
/// API token does not open an admin route.
pub proof fn lemma_bearer_is_not_basic(h: Seq<char>)
    requires
        bearer_token_of(h) is Some,
    ensures
        spec_basic_auth_password(h) is None,
{
    reveal_strlit("Bearer ");
    reveal_strlit("Basic ");
    assert(h.take(6)[1] == h.take(7)[1]);
}

fn bearer_matches(header: &str, expected: &str) -> (r: bool)
    ensures
        r == (match bearer_token_of(header@) {
            Some(t) => t == expected@,
            None => false,
        }),
{
    let h = chars_of(header);
    let prefix = chars_of("Bearer ");
    proof {
        reveal_strlit("Bearer ");
    }
    if h.len() < 7 {
        return false;
    }
    let mut i: usize = 0;
    while i < 7
        invariant
            i <= 7,
            h@.len() >= 7,
            prefix@ == "Bearer "@,
            prefix@.len() == 7,
            h@ == header@,
            forall|j: int| 0 <= j < i ==> h@[j] == prefix@[j],
        decreases 7 - i,
    {
        if h[i] != prefix[i] {
            assert(h@.take(7)[i as int] != prefix@[i as int]);
            assert(h@.take(7) != prefix@);
            assert(bearer_token_of(header@) is None);
            return false;
        }
        i = i + 1;
    }
    assert(h@.take(7) =~= prefix@);
    let rest = copy_range(h.as_slice(), 7, h.len());
    assert(rest@ =~= h@.skip(7));
    let tok = string_of(rest.as_slice());
    tokens_equal(tok.as_str(), expected)
}

/// What the credentials of a request decide by themselves: `Some(allowed)`,
/// or `None` when the admin password hasher must decide.
///
/// Admin routes need HTTP Basic authorization: with no stored admin hash the
/// password must be the default admin password, otherwise the hasher checks
/// it against the stored hash.  All other routes need the configured Bearer
/// token, or the default token when none is configured.
pub open spec fn auth_decision(
    method: Seq<char>,
    path: Seq<char>,
    hs: Seq<(Seq<char>, Seq<char>)>,
    token: Seq<char>,
    admin_password: Seq<char>,
) -> Option<bool> {
    if spec_admin_routes().contains((method, path)) {
        match offered_admin_password(hs) {
            None => Some(false),
            Some(p) => if admin_password.len() == 0 {
                Some(p == DEFAULT_ADMIN_PASSWORD@)
            } else {
                None
            },
        }
    } else {
        Some(bearer_authorized(hs, token))
    }
}

/// Presenting the API token as a Bearer credential never opens an admin
/// route, whatever the stored admin password.
pub proof fn lemma_bearer_never_opens_admin_routes(
    method: Seq<char>,
    path: Seq<char>,
    hs: Seq<(Seq<char>, Seq<char>)>,
    token: Seq<char>,
    admin_password: Seq<char>,
)
    requires
        spec_admin_routes().contains((method, path)),
        find_header(hs, "Authorization"@) matches Some(h) && bearer_token_of(h) is Some,
    ensures
        auth_decision(method, path, hs, token, admin_password) == Some(false),
{
    let h = find_header(hs, "Authorization"@)->0;
    lemma_bearer_is_not_basic(h);
}

/// The first step of authorization.
#[derive(Debug)]
pub enum AuthStep {
    /// The credentials decide: the request is allowed or refused.
    Decided(bool),
    /// The password offered for an admin route must be checked against the
    /// stored admin hash.
    CheckPassword(String),
}

/// Examines the credentials of a request: decides where they suffice, and
/// otherwise names the password that the hasher must check.
pub fn auth_step(request: &HttpRequest, token: &str, admin_password: &str) -> (r: AuthStep)
    ensures
        match auth_decision(
            request.method@,
            request.path@,
            header_views(request.headers@),
            token@,
            admin_password@,
        ) {
            Some(b) => r == AuthStep::Decided(b),
            None => r matches AuthStep::CheckPassword(p) && offered_admin_password(
                header_views(request.headers@),
            ) == Some(p@),
        },
{
    let admin = is_admin_route(request.method.as_str(), request.path.as_str());
    let auth = request.header("Authorization");
    if admin {
        match auth {
            None => AuthStep::Decided(false),
            Some(v) => match basic_auth_password(v) {
                None => AuthStep::Decided(false),
                Some(pwd) => {
                    if admin_password.is_empty() {
                        AuthStep::Decided(tokens_equal(pwd.as_str(), DEFAULT_ADMIN_PASSWORD))
                    } else {
                        AuthStep::CheckPassword(pwd)
                    }
                },
            },
        }
    } else {
        let expected = if token.is_empty() {
            DEFAULT_TOKEN
        } else {
            token
        };
        match auth {
            None => AuthStep::Decided(false),
            Some(v) => AuthStep::Decided(bearer_matches(v, expected)),
        }
    }
}

/// Decides whether a request may proceed: by [`auth_step`], and where the
/// admin password must be checked, by `hasher.verify` on the password offered
/// in the request and the stored hash.
pub fn authorize<H: PasswordHasher>(
    hasher: &H,
    request: &HttpRequest,
    token: &str,
    admin_password: &str,
) -> (r: bool)
    ensures
        auth_decision(
            request.method@,
            request.path@,
            header_views(request.headers@),
            token@,
            admin_password@,
        ) matches Some(b) ==> r == b,
        auth_decision(
            request.method@,
            request.path@,
            header_views(request.headers@),
            token@,
            admin_password@,
        ) is None ==> (offered_admin_password(header_views(request.headers@)) matches Some(p)
            && r == hasher.accepts(p, admin_password@)),
{
    match auth_step(request, token, admin_password) {
        AuthStep::Decided(b) => b,
        AuthStep::CheckPassword(p) => hasher.verify(p.as_str(), admin_password),
    }
}

// ---------------------------------------------------------------------------
// Routing
// ---------------------------------------------------------------------------

/// The handler that serves a request.
#[derive(Debug)]
pub enum Route {
    Status,
    Power,
    PowerSave,
    Reset,
    ConfigGet,
    ConfigPatch,
    Backup,
    Restore,
    SensorsGlass,
    SensorsLevels,
    CreateJob,
    ListJobs,
    CleaningStart,
    CleaningStop,
    /// `GET /v1/dispense/jobs/{job_id}`
    JobStatus(String),
    /// `POST /v1/dispense/jobs/{job_id}`
    CancelJob(String),
    MethodNotAllowed,
    NotFound,
}

/// The job id in a `/v1/dispense/jobs/{job_id}` path.
pub open spec fn job_path_id(p: Seq<char>) -> Option<Seq<char>> {
    if p.len() >= 18 && p.take(18) == "/v1/dispense/jobs/"@ {
        Some(p.skip(18))
    } else {
        None
    }
}

/// The routing table of the API.
pub open spec fn routes_to(r: Route, m: Seq<char>, p: Seq<char>) -> bool {
    if m == "GET"@ && p == "/v1/status"@ {
        r is Status
    } else if m == "POST"@ && p == "/v1/control/power"@ {
        r is Power
    } else if m == "POST"@ && p == "/v1/control/power-save"@ {
        r is PowerSave
    } else if m == "POST"@ && p == "/v1/control/reset"@ {
        r is Reset
    } else if m == "GET"@ && p == "/v1/config"@ {
        r is ConfigGet
    } else if m == "PATCH"@ && p == "/v1/config"@ {
        r is ConfigPatch
    } else if m == "GET"@ && p == "/v1/config/backup"@ {
        r is Backup
    } else if m == "POST"@ && p == "/v1/config/restore"@ {
        r is Restore
    } else if m == "GET"@ && p == "/v1/sensors/glass"@ {
        r is SensorsGlass
    } else if m == "GET"@ && p == "/v1/sensors/levels"@ {
        r is SensorsLevels
    } else if m == "POST"@ && p == "/v1/dispense/jobs"@ {
        r is CreateJob
    } else if m == "GET"@ && p == "/v1/dispense/jobs"@ {
        r is ListJobs
    } else if m == "POST"@ && p == "/v1/cleaning/start"@ {
        r is CleaningStart
    } else if m == "POST"@ && p == "/v1/cleaning/stop"@ {
        r is CleaningStop
    } else {
        match job_path_id(p) {
            Some(id) => if m == "GET"@ {
                r matches Route::JobStatus(j) && j@ == id
            } else if m == "POST"@ {
                r matches Route::CancelJob(j) && j@ == id
            } else {
                r is MethodNotAllowed
            },
            None => r is NotFound,
        }
    }
}

/// Each handler serves one endpoint: two requests routed to the same handler
/// (other than the refusals `MethodNotAllowed` and `NotFound`) have the same
/// method and path.  So no two entries of the API table share a handler,
/// and a job route carries the id of its own path.
pub proof fn lemma_each_handler_serves_one_endpoint(
    r: Route,
    m1: Seq<char>,
    p1: Seq<char>,
    m2: Seq<char>,
    p2: Seq<char>,
)
    requires
        routes_to(r, m1, p1),
        routes_to(r, m2, p2),
        !(r is MethodNotAllowed),
        !(r is NotFound),
    ensures
        m1 == m2,
        p1 == p2,
{
    if r is JobStatus || r is CancelJob {
        assert(p1 =~= p1.take(18) + p1.skip(18));
        assert(p2 =~= p2.take(18) + p2.skip(18));
    }
}

fn is(method: &str, path: &str, m: &str, p: &str) -> (r: bool)
    ensures
        r == (method@ == m@ && path@ == p@),
{
    tokens_equal(method, m) && tokens_equal(path, p)
}

fn job_id_in_path(path: &str) -> (r: Option<String>)
    ensures
        r matches Some(id) ==> job_path_id(path@) == Some(id@),
        r is None ==> job_path_id(path@) is None,
{
    let p = chars_of(path);
    let prefix = chars_of("/v1/dispense/jobs/");
    proof {
        reveal_strlit("/v1/dispense/jobs/");
    }
    if p.len() < 18 {
        return None;
    }
    let mut i: usize = 0;
    while i < 18
        invariant
            i <= 18,
            p@.len() >= 18,
            prefix@ == "/v1/dispense/jobs/"@,
            prefix@.len() == 18,
            p@ == path@,
            forall|j: int| 0 <= j < i ==> p@[j] == prefix@[j],
        decreases 18 - i,
    {
        if p[i] != prefix[i] {
            assert(p@.take(18)[i as int] != prefix@[i as int]);
            assert(p@.take(18) != prefix@);
            assert(job_path_id(path@) is None);
            return None;
        }
        i = i + 1;
    }
    assert(p@.take(18) =~= prefix@);
    let rest = copy_range(p.as_slice(), 18, p.len());
    assert(rest@ =~= p@.skip(18));
    Some(string_of(rest.as_slice()))
}

/// Selects the handler for `method` and `path`.
pub fn route(method: &str, path: &str) -> (r: Route)
    ensures
        routes_to(r, method@, path@),
{
    if is(method, path, "GET", "/v1/status") {
        Route::Status
    } else if is(method, path, "POST", "/v1/control/power") {
        Route::Power
    } else if is(method, path, "POST", "/v1/control/power-save") {
        Route::PowerSave
    } else if is(method, path, "POST", "/v1/control/reset") {
        Route::Reset
    } else if is(method, path, "GET", "/v1/config") {
        Route::ConfigGet
    } else if is(method, path, "PATCH", "/v1/config") {
        Route::ConfigPatch
    } else if is(method, path, "GET", "/v1/config/backup") {
        Route::Backup
    } else if is(method, path, "POST", "/v1/config/restore") {
        Route::Restore
    } else if is(method, path, "GET", "/v1/sensors/glass") {
        Route::SensorsGlass
    } else if is(method, path, "GET", "/v1/sensors/levels") {
        Route::SensorsLevels
    } else if is(method, path, "POST", "/v1/dispense/jobs") {
        Route::CreateJob
    } else if is(method, path, "GET", "/v1/dispense/jobs") {
        Route::ListJobs
    } else if is(method, path, "POST", "/v1/cleaning/start") {
        Route::CleaningStart
    } else if is(method, path, "POST", "/v1/cleaning/stop") {
        Route::CleaningStop
    } else {
        match job_id_in_path(path) {
            Some(id) => {
                if tokens_equal(method, "GET") {
                    Route::JobStatus(id)
                } else if tokens_equal(method, "POST") {
                    Route::CancelJob(id)
                } else {
                    Route::MethodNotAllowed
                }
            },
            None => Route::NotFound,
        }
    }
}

/// Whether a request must be refused with 503 because the robot is still
/// provisioning: only admin routes and `GET /v1/status` and `GET /v1/config`
/// stay open in that state.
pub fn provisioning_blocks(method: &str, path: &str, state: &RobotState) -> (r: bool)
    ensures
        r == (!spec_admin_routes().contains((method@, path@)) && *state is Provisioning
            && !spec_provisioning_allowed().contains((method@, path@))),
{
    if is_admin_route(method, path) {
        return false;
    }
    match state {
        RobotState::Provisioning => !is_provisioning_allowed(method, path),
        _ => false,
    }
}

// ---------------------------------------------------------------------------
// Server containers
// ---------------------------------------------------------------------------

/// Composes all HAL implementations into a single struct.
///
/// Each field is a concrete owned type implementing the corresponding HAL
/// interface.  Generic type parameters (instead of trait objects) keep the
/// code compatible with `async fn` in traits.
pub struct RobotHal<Ctrl, Stat, Cfg, Stor, Sens, Disp, Clean, Hasher> {
    pub control: Ctrl,
    pub status: Stat,
    pub config: Cfg,
    pub storage: Stor,
    pub sensors: Sens,
    pub dispense: Disp,
    pub cleaning: Clean,
    pub hasher: Hasher,
}

/// The HTTP API server over a set of HAL implementations.
pub struct ApiServer<Ctrl, Stat, Cfg, Stor, Sens, Disp, Clean, Hasher> {
    pub hal: RobotHal<Ctrl, Stat, Cfg, Stor, Sens, Disp, Clean, Hasher>,
}

} // verus!
