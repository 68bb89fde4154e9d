use cocktail_bot_hal::hal::{ErrorInfo, JobCreated, JobState, JobStatus, RobotState};
use cocktail_bot_hal::server::handlers::cleaning::{cleaning_start_allowed, cleaning_start_gate};
use cocktail_bot_hal::server::handlers::config::{
    has_active_job, next_change_action, queued_job_ids, redacted_config, resolve_admin_password,
    ChangeAction, ChangeStep, ConfigChange,
};
use cocktail_bot_hal::server::handlers::dispense::{
    choose_glass,
    create_job_reply, generate_job_id, hex_nibble, job_timeout_ms,
};
use cocktail_bot_hal::server::handlers::{command_reply, Reply};
use cocktail_bot_hal::server::http::response_head;
use cocktail_bot_hal::stub::StubPasswordHasher;

fn test_error() -> ErrorInfo {
    ErrorInfo {
        code: "E001".to_string(),
        message: "Test error".to_string(),
        hint: Some("Fix it".to_string()),
        recoverable: true,
    }
}

/// A cleaning unit as the handler tests drive it.
struct MockCleaning {
    cleaning: bool,
    fail_next: Option<ErrorInfo>,
}

impl MockCleaning {
    fn new() -> Self {
        MockCleaning { cleaning: false, fail_next: None }
    }
    fn start(&mut self) -> Result<(), ErrorInfo> {
        if let Some(e) = self.fail_next.take() {
            return Err(e);
        }
        self.cleaning = true;
        Ok(())
    }
    fn stop(&mut self) -> Result<(), ErrorInfo> {
        if let Some(e) = self.fail_next.take() {
            return Err(e);
        }
        self.cleaning = false;
        Ok(())
    }
}

/// Starts cleaning as the endpoint does: check the state, call the unit, answer.
fn handle_start(state: &RobotState, hal: &mut MockCleaning) -> String {
    let reply = match cleaning_start_gate(state) {
        Some(r) => r,
        None => command_reply(hal.start()),
    };
    response_head(reply.status_code(), 0)
}

fn handle_stop(hal: &mut MockCleaning) -> String {
    response_head(command_reply(hal.stop()).status_code(), 0)
}

#[test]
fn cleaning_start_returns_202() {
    let mut hal = MockCleaning::new();
    let resp = handle_start(&RobotState::Idle, &mut hal);
    assert!(resp.contains("HTTP/1.1 202"));
    assert!(hal.cleaning);
}

#[test]
fn cleaning_start_from_provisioning_returns_202() {
    let mut hal = MockCleaning::new();
    let resp = handle_start(&RobotState::Provisioning, &mut hal);
    assert!(resp.contains("HTTP/1.1 202"));
}

#[test]
fn cleaning_start_when_working_returns_409() {
    let mut hal = MockCleaning::new();
    let state = RobotState::Working { job_id: "job-01".to_string(), progress_pct: 50 };
    let resp = handle_start(&state, &mut hal);
    assert!(resp.contains("HTTP/1.1 409"));
    assert!(!hal.cleaning);
}

#[test]
fn cleaning_stop_returns_202() {
    let mut hal = MockCleaning::new();
    hal.cleaning = true;
    let resp = handle_stop(&mut hal);
    assert!(resp.contains("HTTP/1.1 202"));
    assert!(!hal.cleaning);
}

#[test]
fn cleaning_start_hal_error_returns_500() {
    let mut hal = MockCleaning::new();
    hal.fail_next = Some(test_error());
    let resp = handle_start(&RobotState::Idle, &mut hal);
    assert!(resp.contains("HTTP/1.1 500"));
}

#[test]
fn cleaning_stop_hal_error_returns_500() {
    let mut hal = MockCleaning::new();
    hal.fail_next = Some(test_error());
    let resp = handle_stop(&mut hal);
    assert!(resp.contains("HTTP/1.1 500"));
}

#[test]
fn cleaning_gate_states() {
    assert!(cleaning_start_allowed(&RobotState::Idle));
    assert!(!cleaning_start_allowed(&RobotState::Cleaning));
    assert!(!cleaning_start_allowed(&RobotState::Off));
}

#[test]
fn reply_status_codes() {
    assert_eq!(Reply::Accepted.status_code(), 202);
    assert_eq!(Reply::InvalidBody.status_code(), 400);
    assert_eq!(Reply::Unauthorized.status_code(), 401);
    assert_eq!(Reply::NotFound.status_code(), 404);
    assert_eq!(Reply::MethodNotAllowed.status_code(), 405);
    assert_eq!(Reply::CleaningConflict.status_code(), 409);
    assert_eq!(Reply::QueueFull.status_code(), 503);
    assert_eq!(Reply::Provisioning.status_code(), 503);
    match command_reply(Err(test_error())) {
        Reply::HalError(e) => assert_eq!(e.code, "E001"),
        other => panic!("unexpected {:?}", other),
    }
}

#[test]
fn create_job_replies() {
    let ok = create_job_reply(Ok(JobCreated { job_id: "id-1".to_string(), queue_position: 2 }));
    assert_eq!(ok.status_code(), 201);
    let mut full = test_error();
    full.code = "QUEUE_FULL".to_string();
    assert!(matches!(create_job_reply(Err(full)), Reply::QueueFull));
    assert_eq!(create_job_reply(Err(test_error())).status_code(), 500);
}

#[test]
fn job_ids() {
    assert_eq!(generate_job_id("My Drink!", 0), "My Drink_-010000");
    assert_eq!(generate_job_id("a", 0x1234), "a-011234");
    assert_eq!(generate_job_id("", 864_000 + 0xabcd), "-01ABCD");
    let long = "x".repeat(40);
    let id = generate_job_id(&long, 5);
    assert_eq!(id, format!("{}-010005", "x".repeat(32)));
    assert_eq!(generate_job_id("é", 1), "_-010001");
    // the time code is truncated to 16 bits: these two readings collide
    assert_eq!(generate_job_id("n", 0), generate_job_id("n", 65_536));
    assert_ne!(generate_job_id("n", 0), generate_job_id("n", 1));
    assert_ne!(generate_job_id("n", 100), generate_job_id("n", 100 + 65_535));
    assert_eq!(hex_nibble(0), b'0');
    assert_eq!(hex_nibble(15), b'F');
    assert_eq!(job_timeout_ms(None), 30_000);
    assert_eq!(job_timeout_ms(Some(5)), 5);
}

fn job(id: &str, state: JobState, pct: u8) -> JobStatus {
    JobStatus { job_id: id.to_string(), name: id.to_string(), state, progress_pct: pct }
}

#[test]
fn flush_before_config_change() {
    let jobs = vec![
        job("a", JobState::Queued, 0),
        job("b", JobState::Active, 10),
        job("c", JobState::Queued, 0),
        job("d", JobState::Done, 100),
    ];
    assert_eq!(queued_job_ids(&jobs), vec!["a".to_string(), "c".to_string()]);
    assert!(has_active_job(&jobs));
    assert!(!has_active_job(&jobs[2..].to_vec()));
}

#[test]
fn admin_password_on_patch() {
    let h = StubPasswordHasher;
    assert_eq!(resolve_admin_password(&h, "", "stub$old").unwrap(), "stub$old");
    assert_eq!(resolve_admin_password(&h, "new", "stub$old").unwrap(), "stub$new");
}

#[test]
fn glass_choice() {
    let ids = vec!["short".to_string(), "medium".to_string(), "long".to_string(), "long".to_string()];
    assert_eq!(choose_glass(&ids, Some("long")), Some(2));
    assert_eq!(choose_glass(&ids, Some("medium")), Some(1));
    assert_eq!(choose_glass(&ids, Some("tall")), Some(0));
    assert_eq!(choose_glass(&ids, None), Some(0));
    assert_eq!(choose_glass(&Vec::new(), Some("short")), None);
    assert_eq!(choose_glass(&Vec::new(), None), None);
}

#[test]
fn config_view_hides_the_admin_password() {
    let mut cfg = cocktail_bot_hal::stub::StubConfigHal.get_active_config();
    cfg.admin_password = "hashed$secret".to_string();
    cfg.token = "tok".to_string();
    let shown = redacted_config(cfg);
    assert_eq!(shown.admin_password, "");
    assert_eq!(shown.token, "tok");
    assert_eq!(shown.liquids.len(), 1);
    assert_eq!(shown.glass_types.len(), 3);
}

#[test]
fn config_change_steps() {
    let run = |kind, k| match next_change_action(kind, k, Ok(())) {
        ChangeAction::Run(step) => Some(step),
        _ => None,
    };
    assert_eq!(run(ConfigChange::Patch, 0), Some(ChangeStep::Flush));
    assert_eq!(run(ConfigChange::Patch, 1), Some(ChangeStep::Activate));
    assert_eq!(run(ConfigChange::Patch, 2), Some(ChangeStep::Persist));
    assert_eq!(run(ConfigChange::Restore, 0), Some(ChangeStep::Flush));
    assert_eq!(run(ConfigChange::Restore, 1), Some(ChangeStep::Persist));
    assert_eq!(run(ConfigChange::Restore, 2), Some(ChangeStep::Activate));
    assert!(matches!(next_change_action(ConfigChange::Patch, 3, Ok(())), ChangeAction::Finish));
    match next_change_action(ConfigChange::Restore, 2, Err(test_error())) {
        ChangeAction::Fail(e) => assert_eq!(e.code, test_error().code),
        other => panic!("unexpected {:?}", other),
    }
}
