use orchestrator::config::{
    ApiConfig, AuthConfig, BuildConfig, CommandConfig, Config, EndpointConfig, ProjectConfig,
    ProjectEntry, SslConfig,
};
use orchestrator::models::{AppState, BuildStatus, Payload, PayloadValue, ProjectState};
use orchestrator::queue::{
    abort, claim_worker, submit, worker_finish, worker_take_next, AbortOutcome, SubmitOutcome,
};

fn endpoint() -> EndpointConfig {
    EndpointConfig {
        endpoint: "/build".to_string(),
        method: "POST".to_string(),
        payload: Vec::new(),
        return_fields: Vec::new(),
        file: Vec::new(),
    }
}

fn command(cmd: &str, title: &str, on_error: &str) -> CommandConfig {
    CommandConfig {
        command: cmd.to_string(),
        title: title.to_string(),
        on_error: on_error.to_string(),
        send_to_sock: true,
    }
}

fn project_cfg(allow_multi: bool, max_pending: u32) -> ProjectConfig {
    ProjectConfig {
        allow_multi_build: allow_multi,
        max_pending_build: max_pending,
        base_endpoint_path: "/p".to_string(),
        unique_build_key: "job".to_string(),
        api: ApiConfig {
            build: endpoint(),
            is_building: endpoint(),
            abort: endpoint(),
            cleanup: endpoint(),
            socket: endpoint(),
        },
        auth: None,
        build: BuildConfig {
            project_path: ".".to_string(),
            on_success: String::new(),
            on_failure: String::new(),
            on_success_payload: Vec::new(),
            on_failure_payload: Vec::new(),
            commands: vec![
                command("echo hi", "say hi", "abort"),
                command("false", "fail", "abort"),
                command("echo bye", "say bye", "abort"),
            ],
            run_on_success: Vec::new(),
            run_on_failure: vec![command("echo cleanup", "cleanup", "continue")],
        },
    }
}

fn job_payload(job: &str) -> Payload {
    let mut p = Payload::new();
    p.push("job".to_string(), PayloadValue::Text(job.to_string()));
    p
}

fn submit_job(state: &mut ProjectState, cfg: &ProjectConfig, job: &str, n: u32) -> SubmitOutcome {
    submit(
        state,
        cfg,
        "p".to_string(),
        job_payload(job),
        true,
        format!("B{}", n),
        format!("T{}", n),
        1000 + n as i64,
    )
}

#[test]
fn unauthorized_is_rejected_without_side_effect() {
    let cfg = project_cfg(true, 2);
    let mut state = ProjectState::new();
    let r = submit(
        &mut state,
        &cfg,
        "p".to_string(),
        job_payload("A"),
        false,
        "B1".to_string(),
        "T1".to_string(),
        0,
    );
    assert!(matches!(r, SubmitOutcome::Unauthorized));
    assert_eq!(state.build_queue.len(), 0);
}

#[test]
fn missing_required_field_names_it() {
    let mut cfg = project_cfg(true, 2);
    cfg.api.build.payload = vec!["$branch".to_string()];
    let mut state = ProjectState::new();
    let r = submit_job(&mut state, &cfg, "A", 1);
    match r {
        SubmitOutcome::Missing { field } => assert_eq!(field, "branch"),
        _ => panic!("expected missing"),
    }
    assert_eq!(state.build_queue.len(), 0);
}

#[test]
fn missing_unique_key_is_rejected() {
    let cfg = project_cfg(true, 2);
    let mut state = ProjectState::new();
    let mut p = Payload::new();
    p.push("other".to_string(), PayloadValue::Text("x".to_string()));
    let r = submit(
        &mut state,
        &cfg,
        "p".to_string(),
        p,
        true,
        "B1".to_string(),
        "T1".to_string(),
        0,
    );
    match r {
        SubmitOutcome::Missing { field } => assert_eq!(field, "job"),
        _ => panic!("expected missing"),
    }
}

#[test]
fn non_string_unique_key_is_rejected() {
    let cfg = project_cfg(true, 2);
    let mut state = ProjectState::new();
    let mut p = Payload::new();
    p.push("job".to_string(), PayloadValue::Json("42".to_string()));
    let r = submit(
        &mut state,
        &cfg,
        "p".to_string(),
        p,
        true,
        "B1".to_string(),
        "T1".to_string(),
        0,
    );
    assert!(matches!(r, SubmitOutcome::Missing { .. }));
}

#[test]
fn single_build_project_rejects_while_running() {
    let cfg = project_cfg(false, 2);
    let mut state = ProjectState::new();
    let r = submit_job(&mut state, &cfg, "A", 1);
    assert!(matches!(r, SubmitOutcome::Building { .. }));
    claim_worker(&mut state);
    let req = worker_take_next(&mut state, 3, 10).expect("a queued request");
    assert_eq!(req.unique_id, "A");
    let r2 = submit_job(&mut state, &cfg, "B", 2);
    match r2 {
        SubmitOutcome::AlreadyRunning { socket_token } => assert_eq!(socket_token, "T1"),
        _ => panic!("expected already_running"),
    }
}

#[test]
fn duplicate_id_running_is_already() {
    let cfg = project_cfg(true, 2);
    let mut state = ProjectState::new();
    submit_job(&mut state, &cfg, "A", 1);
    claim_worker(&mut state);
    worker_take_next(&mut state, 3, 10);
    let r = submit_job(&mut state, &cfg, "A", 2);
    match r {
        SubmitOutcome::Already { socket_token } => assert_eq!(socket_token, "T1"),
        _ => panic!("expected already"),
    }
}

#[test]
fn worker_is_fifo_and_sleeps_on_empty() {
    let cfg = project_cfg(true, 3);
    let mut state = ProjectState::new();
    submit_job(&mut state, &cfg, "A", 1);
    submit_job(&mut state, &cfg, "B", 2);
    submit_job(&mut state, &cfg, "C", 3);
    assert!(claim_worker(&mut state));
    assert!(!claim_worker(&mut state));
    let first = worker_take_next(&mut state, 3, 10).unwrap();
    assert_eq!(first.unique_id, "A");
    let current = state.current_build.as_ref().unwrap();
    assert_eq!(current.unique_id, "A");
    assert!(matches!(current.status, BuildStatus::Running));
    assert_eq!(current.total_steps, 3);
    worker_finish(&mut state, 20);
    let second = worker_take_next(&mut state, 3, 30).unwrap();
    assert_eq!(second.unique_id, "B");
    worker_finish(&mut state, 40);
    let third = worker_take_next(&mut state, 3, 50).unwrap();
    assert_eq!(third.unique_id, "C");
    worker_finish(&mut state, 60);
    assert!(worker_take_next(&mut state, 3, 70).is_none());
    assert!(!state.worker_alive);
    assert_eq!(state.build_history.len(), 3);
}

#[test]
fn finish_archives_duration_and_logs() {
    let cfg = project_cfg(true, 2);
    let mut state = ProjectState::new();
    submit_job(&mut state, &cfg, "A", 1);
    claim_worker(&mut state);
    worker_take_next(&mut state, 3, 100);
    let result = worker_finish(&mut state, 160).expect("a result");
    assert_eq!(result.started_at, 100);
    assert_eq!(result.completed_at, 160);
    assert_eq!(result.duration_seconds, 60);
    assert!(state.current_build.is_none());
    assert_eq!(state.build_history.len(), 1);
    assert_eq!(state.build_history[0].id, result.id);
}

#[test]
fn abort_missing_build_is_not_found() {
    let mut state = ProjectState::new();
    let mut terminated = false;
    let r = abort(&mut state, &mut terminated, "nothing");
    assert!(matches!(r, AbortOutcome::NotFound));
    assert!(!terminated);
}

#[test]
fn abort_running_build_raises_the_flag() {
    let cfg = project_cfg(true, 2);
    let mut state = ProjectState::new();
    submit_job(&mut state, &cfg, "A", 1);
    claim_worker(&mut state);
    worker_take_next(&mut state, 3, 10);
    let mut terminated = false;
    let r = abort(&mut state, &mut terminated, "A");
    assert!(matches!(r, AbortOutcome::Aborted { was_running: true }));
    assert!(terminated);
    assert!(state.current_build.is_some());
}

fn server_config() -> Config {
    Config {
        name: "srv".to_string(),
        port: 8080,
        base_path: "/".to_string(),
        log_path: "/tmp/logs".to_string(),
        ssl: SslConfig {
            enable_ssl: false,
            certificate_path: String::new(),
            certificate_key_path: String::new(),
        },
        auth: AuthConfig {
            auth_type: "token".to_string(),
            address_type: "ip".to_string(),
            allowed_addresses: Vec::new(),
            allowed_tokens: vec!["secret".to_string()],
        },
        projects: vec![
            ProjectEntry { name: "p".to_string(), project: project_cfg(true, 2) },
            ProjectEntry { name: "q".to_string(), project: project_cfg(false, 1) },
        ],
    }
}

#[test]
fn app_state_starts_with_one_fresh_slot_per_project() {
    let app = AppState::new(server_config());
    assert_eq!(app.projects.len(), 2);
    assert_eq!(app.projects[0].name, "p");
    assert_eq!(app.projects[1].name, "q");
    assert!(app.projects.iter().all(|s| s.state.build_queue.is_empty()
        && s.state.current_build.is_none()
        && s.state.build_history.is_empty()
        && !s.state.worker_alive));
    assert!(!app.is_terminated);
    assert_eq!(app.project_index("q"), Some(1));
    assert_eq!(app.project_index("zzz"), None);
}

#[test]
fn find_build_by_token_sees_only_running_builds() {
    let mut app = AppState::new(server_config());
    assert_eq!(app.find_build_by_token("T1"), None);
    let cfg = project_cfg(true, 2);
    let state = &mut app.projects[0].state;
    submit_job(state, &cfg, "A", 1);
    assert_eq!(app.find_build_by_token("T1"), None);
    let state = &mut app.projects[0].state;
    claim_worker(state);
    worker_take_next(state, 3, 10);
    assert_eq!(app.find_build_by_token("T1"), Some(0));
}

#[test]
fn project_lookup_prefers_first_match() {
    let config = server_config();
    let p = config.project_named("q").expect("project q");
    assert!(!p.allow_multi_build);
    assert!(config.project_named("nope").is_none());
    assert_eq!(config.extract_project_name("/p/build"), Some("p".to_string()));
    assert_eq!(config.extract_project_name("/nowhere"), None);
}
