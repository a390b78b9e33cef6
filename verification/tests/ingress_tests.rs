use orchestrator::config::ReturnField;
use orchestrator::ingress::{
    abort_response, cleanup_response, status_response, submit_response, subscribe_allowed,
};
use orchestrator::models::{
    BuildProcess, BuildStatus, Payload, PayloadValue, ProjectState,
};
use orchestrator::queue::{AbortOutcome, SubmitOutcome};

fn running_state() -> ProjectState {
    let mut state = ProjectState::new();
    state.worker_alive = true;
    state.current_build = Some(BuildProcess {
        id: "B1".to_string(),
        project_name: "p".to_string(),
        unique_id: "A".to_string(),
        status: BuildStatus::Running,
        current_step: 2,
        total_steps: 3,
        started_at: 100,
        socket_token: "T1".to_string(),
        logs: Vec::new(),
    });
    state
}

#[test]
fn status_reports_running_build_and_queue_length() {
    let state = running_state();
    let r = status_response(&state);
    assert!(r.is_building);
    assert_eq!(r.queue_length, 0);
    let info = r.current_build.unwrap();
    assert_eq!(info.id, "B1");
    assert_eq!(info.current_step, 2);
    assert_eq!(info.total_steps, 3);
    assert_eq!(info.socket_token, "T1");

    let idle = ProjectState::new();
    let r2 = status_response(&idle);
    assert!(!r2.is_building);
    assert!(r2.current_build.is_none());
}

#[test]
fn subscription_needs_the_running_token() {
    let state = running_state();
    assert!(subscribe_allowed(&state, "T1"));
    assert!(!subscribe_allowed(&state, "T2"));
    assert!(!subscribe_allowed(&ProjectState::new(), "T1"));
}

#[test]
fn building_answer_carries_ids_and_resolved_fields() {
    let outcome = SubmitOutcome::Building {
        build_id: "B1".to_string(),
        socket_token: "T1".to_string(),
    };
    let fields = vec![
        ReturnField { name: Some("sock".to_string()), value: "%socket_token%".to_string() },
        ReturnField { name: None, value: "%status%".to_string() },
        ReturnField { name: Some("branch".to_string()), value: "$BRANCH".to_string() },
    ];
    let mut payload = Payload::new();
    payload.push("job".to_string(), PayloadValue::Text("A".to_string()));
    let env = vec![None, None, Some("main".to_string())];
    let r = submit_response(&outcome, &fields, &payload, &env);
    assert!(r.success);
    assert_eq!(r.state, "building");
    let data: Vec<(&str, &str)> =
        r.data.iter().map(|(k, v)| (k.as_str(), v.as_str())).collect();
    assert_eq!(
        data,
        vec![
            ("build_id", "B1"),
            ("socket_token", "T1"),
            ("sock", "T1"),
            ("%status%", "queued"),
            ("branch", "main"),
        ]
    );
}

#[test]
fn rejection_answers_carry_their_state_strings() {
    let payload = Payload::new();
    let none: Vec<ReturnField> = Vec::new();
    let env: Vec<Option<String>> = Vec::new();
    let r = submit_response(&SubmitOutcome::Unauthorized, &none, &payload, &env);
    assert!(!r.success);
    assert_eq!(r.state, "unauthorized");

    let r = submit_response(
        &SubmitOutcome::Missing { field: "job".to_string() },
        &none,
        &payload,
        &env,
    );
    assert_eq!(r.state, "missing");
    assert!(r.message.contains("job"));

    let r = submit_response(
        &SubmitOutcome::AlreadyRunning { socket_token: "T9".to_string() },
        &none,
        &payload,
        &env,
    );
    assert_eq!(r.state, "already_running");
    assert_eq!(r.data[0], ("socket_token".to_string(), "T9".to_string()));

    let r = submit_response(
        &SubmitOutcome::Already { socket_token: "T8".to_string() },
        &none,
        &payload,
        &env,
    );
    assert_eq!(r.state, "already");
    assert_eq!(r.data[0].1, "T8");

    let r = submit_response(
        &SubmitOutcome::Full { queue_length: 2, max_queue: 2 },
        &none,
        &payload,
        &env,
    );
    assert_eq!(r.state, "full");
    assert_eq!(r.data[0], ("queue_length".to_string(), "2".to_string()));
    assert_eq!(r.data[1], ("max_queue".to_string(), "2".to_string()));

    let r = submit_response(&SubmitOutcome::AlreadyRunningOtherProject, &none, &payload, &env);
    assert_eq!(r.state, "already_running_other_project");
}

#[test]
fn abort_and_cleanup_answers() {
    let r = abort_response(&AbortOutcome::Aborted { was_running: false });
    assert!(r.success);
    assert_eq!(r.state, "aborted");
    let r = abort_response(&AbortOutcome::NotFound);
    assert!(!r.success);
    assert_eq!(r.state, "not_found");
    let r = cleanup_response();
    assert!(r.success);
    assert_eq!(r.state, "success");
}
