use cocktail_bot_hal::hal::{GlassWaitReason, JobState, JobStatus, RecoveryAction, RobotState};
use cocktail_bot_hal::server::sse::{job_changed, jobs_to_emit, plan_poll, sse_frame, state_changed};

fn job(id: &str, state: JobState, pct: u8) -> JobStatus {
    JobStatus { job_id: id.to_string(), name: id.to_string(), state, progress_pct: pct }
}

#[test]
fn sse_frames() {
    assert_eq!(
        sse_frame("state_change", "{\"state\":{\"state\":\"idle\"}}"),
        "event: state_change\ndata: {\"state\":{\"state\":\"idle\"}}\n\n"
    );
}

#[test]
fn job_change_detection() {
    let a = job("a", JobState::Active, 10);
    assert!(!job_changed(&a, &a.clone()));
    assert!(job_changed(&a, &job("a", JobState::Active, 11)));
    assert!(job_changed(&a, &job("a", JobState::Done, 10)));
    // an error's message is not part of what clients see
    assert!(!job_changed(
        &job("a", JobState::Error("x".to_string()), 0),
        &job("a", JobState::Error("y".to_string()), 0)
    ));
}

#[test]
fn poll_reports_new_and_changed_jobs() {
    let prev = vec![job("a", JobState::Queued, 0), job("b", JobState::Active, 20)];
    let cur = vec![
        job("a", JobState::Queued, 0),
        job("b", JobState::Active, 40),
        job("c", JobState::Queued, 0),
    ];
    assert_eq!(jobs_to_emit(&prev, &cur), vec![1, 2]);
    assert!(jobs_to_emit(&cur, &cur).is_empty());
    let plan = plan_poll(false, &cur, &cur, 30_000);
    assert!(!plan.emit_state && plan.job_events.is_empty() && plan.keepalive);
    let plan = plan_poll(false, &cur, &cur, 29_999);
    assert!(!plan.keepalive);
    let plan = plan_poll(true, &cur, &cur, 60_000);
    assert!(plan.emit_state && !plan.keepalive);
    let plan = plan_poll(false, &prev, &cur, 60_000);
    assert!(!plan.keepalive);
}

fn waiting(detected: f32) -> RobotState {
    RobotState::WaitingForGlass {
        job_id: "j".to_string(),
        reason: GlassWaitReason::TooSmall {
            detected_volume: detected.to_bits(),
            required_volume: 200.0f32.to_bits(),
        },
        timeout_remaining_secs: Some(5),
    }
}

#[test]
fn state_change_detection() {
    assert!(!state_changed(&RobotState::Idle, &RobotState::Idle));
    assert!(state_changed(&RobotState::Idle, &RobotState::Off));
    let w = |p: u8| RobotState::Working { job_id: "j".to_string(), progress_pct: p };
    assert!(!state_changed(&w(10), &w(10)));
    assert!(state_changed(&w(10), &w(11)));
    assert!(!state_changed(&waiting(100.0), &waiting(100.0)));
    assert!(state_changed(&waiting(100.0), &waiting(150.0)));
    // volumes compare as f32 values: 0.0 equals -0.0, a NaN equals nothing
    assert!(!state_changed(&waiting(0.0), &waiting(-0.0)));
    assert!(state_changed(&waiting(f32::NAN), &waiting(f32::NAN)));
    let e = |m: &str| RobotState::Error {
        code: "E".to_string(),
        message: m.to_string(),
        job_id: None,
        recoverable: true,
        recovery: RecoveryAction::CallResetErrors,
        timeout_remaining_secs: None,
    };
    assert!(!state_changed(&e("a"), &e("a")));
    assert!(state_changed(&e("a"), &e("b")));
}
