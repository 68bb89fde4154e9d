use cocktail_bot_hal::hal::{PasswordHasher, RobotState};
use cocktail_bot_hal::server::http::{basic_auth_password, HttpRequest};
use cocktail_bot_hal::server::{
    admin_routes, auth_step, authorize, is_admin_route, is_provisioning_allowed, provisioning_allowed_routes,
    provisioning_blocks, route, tokens_equal, AuthStep, Route, DEFAULT_ADMIN_PASSWORD, DEFAULT_TOKEN,
};
use cocktail_bot_hal::stub::StubPasswordHasher;

/// PATCH /v1/config is an admin route: a Bearer token must not satisfy it.
#[test]
fn patch_config_is_admin_route() {
    assert!(
        admin_routes()
            .iter()
            .any(|(m, p)| *m == "PATCH" && *p == "/v1/config"),
        "PATCH /v1/config must be in ADMIN_ROUTES"
    );
}

/// GET /v1/config/backup is an admin route.
#[test]
fn backup_is_admin_route() {
    assert!(admin_routes()
        .iter()
        .any(|(m, p)| *m == "GET" && *p == "/v1/config/backup"),);
}

/// POST /v1/config/restore is an admin route.
#[test]
fn restore_is_admin_route() {
    assert!(admin_routes()
        .iter()
        .any(|(m, p)| *m == "POST" && *p == "/v1/config/restore"),);
}

/// A Bearer-style header yields no Basic Auth password.
#[test]
fn bearer_token_rejected_on_admin_route() {
    let bearer_header = "Bearer some-token";
    let password = basic_auth_password(bearer_header);
    assert!(
        password.is_none(),
        "Bearer header must not produce a Basic Auth password"
    );
}

/// A correct Basic Auth header yields the password, which matches the default.
#[test]
fn correct_basic_auth_accepted_on_admin_route() {
    // "admin:changeme" base64 → "YWRtaW46Y2hhbmdlbWU="
    let basic_header = "Basic YWRtaW46Y2hhbmdlbWU=";
    let password = basic_auth_password(basic_header);
    assert!(password.is_some(), "Valid Basic Auth header must decode");
    assert!(
        tokens_equal(password.as_deref().unwrap(), DEFAULT_ADMIN_PASSWORD),
        "Correct password must match DEFAULT_ADMIN_PASSWORD"
    );
}

/// A wrong password in Basic Auth must be rejected.
#[test]
fn wrong_basic_auth_rejected() {
    // "admin:wrongpassword" base64 → "YWRtaW46d3JvbmdwYXNzd29yZA=="
    let basic_header = "Basic YWRtaW46d3JvbmdwYXNzd29yZA==";
    let password = basic_auth_password(basic_header);
    assert!(password.is_some());
    assert!(
        !tokens_equal(password.as_deref().unwrap(), DEFAULT_ADMIN_PASSWORD),
        "Wrong password must not match DEFAULT_ADMIN_PASSWORD"
    );
}

fn request(method: &str, path: &str, auth: Option<&str>) -> HttpRequest {
    let mut headers = Vec::new();
    headers.push(("Host".to_string(), "robot".to_string()));
    if let Some(a) = auth {
        headers.push(("authorization".to_string(), a.to_string()));
    }
    HttpRequest {
        method: method.to_string(),
        path: path.to_string(),
        headers,
        body: Vec::new(),
    }
}

#[test]
fn tokens_equal_compares_whole_strings() {
    assert!(tokens_equal("changeme", "changeme"));
    assert!(!tokens_equal("changeme", "changemf"));
    assert!(!tokens_equal("changeme", "changem"));
    assert!(tokens_equal("", ""));
    assert!(tokens_equal("grüß", "grüß"));
    assert!(!tokens_equal("grüß", "gruss"));
}

#[test]
fn basic_auth_password_edge_cases() {
    // "user:" → empty password
    assert_eq!(basic_auth_password("Basic dXNlcjo=").as_deref(), Some(""));
    // scheme compared without regard to case
    assert_eq!(
        basic_auth_password("basic YWRtaW46Y2hhbmdlbWU=").as_deref(),
        Some("changeme")
    );
    // password may itself contain ':' → "a:b:c" → "b:c"
    assert_eq!(basic_auth_password("Basic YTpiOmM=").as_deref(), Some("b:c"));
    // no colon in "admin"
    assert_eq!(basic_auth_password("Basic YWRtaW4="), None);
    // not base64
    assert_eq!(basic_auth_password("Basic !!!!"), None);
    // wrong length
    assert_eq!(basic_auth_password("Basic YWRtaW46Y2hhbmdlbWU"), None);
    // base64 of bytes that are not UTF-8 (0xff 0x3a 0x61)
    assert_eq!(basic_auth_password("Basic /zph"), None);
    assert_eq!(basic_auth_password("Basic"), None);
}

#[test]
fn admin_and_provisioning_tables() {
    assert_eq!(admin_routes().len(), 8);
    assert!(is_admin_route("POST", "/v1/cleaning/stop"));
    assert!(!is_admin_route("GET", "/v1/config"));
    assert!(!is_admin_route("post", "/v1/cleaning/stop"));
    assert_eq!(provisioning_allowed_routes(), vec![("GET", "/v1/status"), ("GET", "/v1/config")]);
    assert!(is_provisioning_allowed("GET", "/v1/status"));
    assert!(!is_provisioning_allowed("GET", "/v1/dispense/jobs"));
}

#[test]
fn bearer_routes_need_the_token() {
    let h = StubPasswordHasher;
    // default token when none is configured
    assert!(authorize(&h, &request("GET", "/v1/status", Some("Bearer changeme")), "", ""));
    assert!(!authorize(&h, &request("GET", "/v1/status", Some("Bearer other")), "", ""));
    // the configured token replaces the default
    assert!(authorize(&h, &request("GET", "/v1/status", Some("Bearer tok")), "tok", ""));
    assert!(!authorize(&h, &request("GET", "/v1/status", Some("Bearer changeme")), "tok", ""));
    // scheme is case-sensitive, header missing
    assert!(!authorize(&h, &request("GET", "/v1/status", Some("bearer changeme")), "", ""));
    assert!(!authorize(&h, &request("GET", "/v1/status", None), "", ""));
    assert_eq!(DEFAULT_TOKEN, "changeme");
}

#[test]
fn admin_routes_need_the_admin_password() {
    let h = StubPasswordHasher;
    let good = Some("Basic YWRtaW46Y2hhbmdlbWU=");
    let wrong = Some("Basic YWRtaW46d3JvbmdwYXNzd29yZA==");
    // no hash stored: the default password opens admin routes
    assert!(authorize(&h, &request("PATCH", "/v1/config", good), "", ""));
    assert!(!authorize(&h, &request("PATCH", "/v1/config", wrong), "", ""));
    // the API token does not open an admin route
    assert!(!authorize(&h, &request("PATCH", "/v1/config", Some("Bearer changeme")), "", ""));
    // a stored hash is checked by the hasher
    let stored = h.hash("changeme").unwrap();
    assert!(authorize(&h, &request("POST", "/v1/control/reset", good), "", &stored));
    let other = h.hash("secret").unwrap();
    assert!(!authorize(&h, &request("POST", "/v1/control/reset", good), "", &other));
}

#[test]
fn routing_table() {
    assert!(matches!(route("GET", "/v1/status"), Route::Status));
    assert!(matches!(route("POST", "/v1/control/power-save"), Route::PowerSave));
    assert!(matches!(route("PATCH", "/v1/config"), Route::ConfigPatch));
    assert!(matches!(route("GET", "/v1/dispense/jobs"), Route::ListJobs));
    assert!(matches!(route("POST", "/v1/dispense/jobs"), Route::CreateJob));
    match route("GET", "/v1/dispense/jobs/abc-01F00") {
        Route::JobStatus(id) => assert_eq!(id, "abc-01F00"),
        other => panic!("unexpected {:?}", other),
    }
    match route("POST", "/v1/dispense/jobs/x") {
        Route::CancelJob(id) => assert_eq!(id, "x"),
        other => panic!("unexpected {:?}", other),
    }
    assert!(matches!(route("DELETE", "/v1/dispense/jobs/x"), Route::MethodNotAllowed));
    assert!(matches!(route("GET", "/v1/unknown"), Route::NotFound));
    assert!(matches!(route("DELETE", "/v1/status"), Route::NotFound));
}

#[test]
fn provisioning_gate() {
    assert!(provisioning_blocks("GET", "/v1/dispense/jobs", &RobotState::Provisioning));
    assert!(!provisioning_blocks("GET", "/v1/status", &RobotState::Provisioning));
    assert!(!provisioning_blocks("GET", "/v1/config", &RobotState::Provisioning));
    assert!(!provisioning_blocks("POST", "/v1/config/restore", &RobotState::Provisioning));
    assert!(!provisioning_blocks("GET", "/v1/dispense/jobs", &RobotState::Idle));
}

#[test]
fn auth_step_names_the_password_to_check() {
    // "admin:secret"
    let r = request("PATCH", "/v1/config", Some("Basic YWRtaW46c2VjcmV0"));
    match auth_step(&r, "tok", "stub$secret") {
        AuthStep::CheckPassword(p) => assert_eq!(p, "secret"),
        other => panic!("unexpected {:?}", other),
    }
    assert!(matches!(auth_step(&r, "tok", ""), AuthStep::Decided(false)));
    let bearer = request("PATCH", "/v1/config", Some("Bearer tok"));
    assert!(matches!(auth_step(&bearer, "tok", "stub$secret"), AuthStep::Decided(false)));
    let status = request("GET", "/v1/status", Some("Bearer tok"));
    assert!(matches!(auth_step(&status, "tok", "stub$secret"), AuthStep::Decided(true)));
    let none = request("GET", "/v1/status", None);
    assert!(matches!(auth_step(&none, "tok", ""), AuthStep::Decided(false)));
}
