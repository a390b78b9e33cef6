use orchestrator::config::{
    ApiConfig, BuildConfig, CommandConfig, EndpointConfig, ProjectConfig,
};
use orchestrator::executor::{
    begin_command, begin_post_command, check_abort, command_finished, mark_complete,
    post_commands, record_line, should_run_posts, spawn_failed, start_build,
};
use orchestrator::ingress::render_history_frame;
use orchestrator::logbus::LogBus;
use orchestrator::models::{BuildStatus, Payload, PayloadValue, ProjectState};
use orchestrator::queue::{
    abort, claim_worker, submit, worker_finish, worker_take_next, AbortOutcome, SubmitOutcome,
};
use orchestrator::resolve::render_log_file;

fn endpoint() -> EndpointConfig {
    EndpointConfig {
        endpoint: "/build".to_string(),
        method: "POST".to_string(),
        payload: Vec::new(),
        return_fields: Vec::new(),
        file: Vec::new(),
    }
}

fn command(cmd: &str, title: &str, on_error: &str) -> CommandConfig {
    CommandConfig {
        command: cmd.to_string(),
        title: title.to_string(),
        on_error: on_error.to_string(),
        send_to_sock: true,
    }
}

/// The reference project: `allow_multi_build=true`, `max_pending_build=2`,
/// dedup key `job`, three commands with the middle one aborting on failure,
/// and one cleanup command after failures.
fn project_cfg() -> ProjectConfig {
    ProjectConfig {
        allow_multi_build: true,
        max_pending_build: 2,
        base_endpoint_path: "/p".to_string(),
        unique_build_key: "job".to_string(),
        api: ApiConfig {
            build: endpoint(),
            is_building: endpoint(),
            abort: endpoint(),
            cleanup: endpoint(),
            socket: endpoint(),
        },
        auth: None,
        build: BuildConfig {
            project_path: ".".to_string(),
            on_success: String::new(),
            on_failure: String::new(),
            on_success_payload: Vec::new(),
            on_failure_payload: Vec::new(),
            commands: vec![
                command("echo hi", "say hi", "abort"),
                command("false", "flaky", "abort"),
                command("echo bye", "say bye", "abort"),
            ],
            run_on_success: Vec::new(),
            run_on_failure: vec![command("echo cleanup", "cleanup", "continue")],
        },
    }
}

fn job_payload(job: &str) -> Payload {
    let mut p = Payload::new();
    p.push("job".to_string(), PayloadValue::Text(job.to_string()));
    p
}

fn submit_job(state: &mut ProjectState, cfg: &ProjectConfig, job: &str, n: u32) -> SubmitOutcome {
    submit(
        state,
        cfg,
        "p".to_string(),
        job_payload(job),
        true,
        format!("B{}", n),
        format!("T{}", n),
        1000 + n as i64,
    )
}

#[test]
fn happy_path_runs_all_commands_to_success() {
    let mut cfg = project_cfg();
    cfg.build.commands[1] = command("true", "flaky", "abort");
    let mut state = ProjectState::new();
    let outcome = submit_job(&mut state, &cfg, "A", 1);
    match outcome {
        SubmitOutcome::Building { build_id, socket_token } => {
            assert_eq!(build_id, "B1");
            assert_eq!(socket_token, "T1");
        },
        _ => panic!("expected building"),
    }
    assert!(claim_worker(&mut state));
    let req = worker_take_next(&mut state, cfg.build.commands.len(), 100).unwrap();
    let mut bus = LogBus::new();
    let sub = bus.attach();
    let proc = state.current_build.as_mut().unwrap();
    start_build(proc, &mut bus, 100);
    let outputs: [&[&str]; 3] = [&["hi"], &[], &["bye"]];
    for (i, cmd) in cfg.build.commands.iter().enumerate() {
        let mut terminated = false;
        assert!(!check_abort(proc, &mut terminated));
        let resolved = begin_command(proc, &mut bus, cmd, &req.payload, "TS", 101 + i as i64);
        assert_eq!(resolved, cmd.command);
        for line in outputs[i] {
            record_line(proc, &mut bus, false, line.to_string(), 101 + i as i64);
        }
        let stop = command_finished(proc, &mut bus, true, &cmd.on_error, 101 + i as i64);
        assert!(!stop);
    }
    mark_complete(proc);
    assert!(matches!(proc.status, BuildStatus::Success));
    assert!(should_run_posts(proc.status));
    assert!(post_commands(&cfg.build, proc.status).is_empty());
    bus.emit_shutdown();
    let result = worker_finish(&mut state, 120).unwrap();
    assert!(matches!(result.status, BuildStatus::Success));
    let messages: Vec<&str> = result.logs.iter().map(|l| l.message.as_str()).collect();
    assert_eq!(
        messages,
        vec![
            "Build started",
            "Executing: say hi",
            "hi",
            "Executing: flaky",
            "Executing: say bye",
            "bye"
        ]
    );
    let received = bus.poll(sub);
    let streamed: Vec<&str> = bus.subscribers[sub]
        .delivered
        .iter()
        .map(|l| l.message.as_str())
        .collect();
    assert_eq!(streamed, messages);
    assert_eq!(received.len(), messages.len());
    let steps: Vec<usize> = result.logs.iter().map(|l| l.step).collect();
    assert!(steps.windows(2).all(|w| w[0] <= w[1]));
    assert_eq!(steps, vec![0, 1, 1, 2, 3, 3]);
    let file = render_log_file(&result);
    assert!(file.contains("hi\n"));
    assert!(file.contains("bye\n"));
    assert_eq!(file, "Build started\nExecuting: say hi\nhi\nExecuting: flaky\nExecuting: say bye\nbye\n");
}

#[test]
fn failing_command_aborts_pipeline_but_runs_cleanup() {
    let cfg = project_cfg();
    let mut state = ProjectState::new();
    submit_job(&mut state, &cfg, "B", 1);
    claim_worker(&mut state);
    let req = worker_take_next(&mut state, cfg.build.commands.len(), 100).unwrap();
    let mut bus = LogBus::new();
    let proc = state.current_build.as_mut().unwrap();
    start_build(proc, &mut bus, 100);
    let mut executed: Vec<String> = Vec::new();
    let mut stopped = false;
    for cmd in cfg.build.commands.iter() {
        let resolved = begin_command(proc, &mut bus, cmd, &req.payload, "TS", 101);
        executed.push(resolved.clone());
        let exit_ok = resolved != "false";
        if exit_ok {
            record_line(proc, &mut bus, false, "hi".to_string(), 101);
        }
        if command_finished(proc, &mut bus, exit_ok, &cmd.on_error, 101) {
            stopped = true;
            break;
        }
    }
    assert!(stopped);
    assert_eq!(executed, vec!["echo hi", "false"]);
    assert!(matches!(proc.status, BuildStatus::Failed));
    mark_complete(proc);
    assert!(matches!(proc.status, BuildStatus::Failed));
    assert!(should_run_posts(proc.status));
    let posts = post_commands(&cfg.build, proc.status).clone();
    assert_eq!(posts.len(), 1);
    for cmd in posts.iter() {
        let resolved = begin_post_command(proc, &mut bus, cmd, &req.payload, "TS", 102);
        assert_eq!(resolved, "echo cleanup");
        record_line(proc, &mut bus, false, "cleanup".to_string(), 102);
        assert!(!command_finished(proc, &mut bus, true, &cmd.on_error, 102));
    }
    assert!(matches!(proc.status, BuildStatus::Failed));
    bus.emit_shutdown();
    assert!(bus.shutdown);
    let result = worker_finish(&mut state, 120).unwrap();
    assert!(matches!(result.status, BuildStatus::Failed));
    let messages: Vec<&str> = result.logs.iter().map(|l| l.message.as_str()).collect();
    assert!(messages.contains(&"Executing: cleanup"));
    assert!(!messages.contains(&"Executing: say bye"));
}

#[test]
fn duplicate_submission_in_queue_is_already() {
    let cfg = project_cfg();
    let mut state = ProjectState::new();
    assert!(matches!(submit_job(&mut state, &cfg, "X", 1), SubmitOutcome::Building { .. }));
    assert!(matches!(submit_job(&mut state, &cfg, "Y", 2), SubmitOutcome::Building { .. }));
    let third = submit_job(&mut state, &cfg, "X", 3);
    match third {
        SubmitOutcome::Already { socket_token } => assert_eq!(socket_token, "T1"),
        _ => panic!("expected already"),
    }
    assert_eq!(state.build_queue.len(), 2);
}

#[test]
fn queue_full_reports_its_length() {
    let cfg = project_cfg();
    let mut state = ProjectState::new();
    submit_job(&mut state, &cfg, "A", 1);
    claim_worker(&mut state);
    worker_take_next(&mut state, 3, 10);
    assert!(matches!(submit_job(&mut state, &cfg, "B", 2), SubmitOutcome::Building { .. }));
    assert!(matches!(submit_job(&mut state, &cfg, "C", 3), SubmitOutcome::Building { .. }));
    let fourth = submit_job(&mut state, &cfg, "D", 4);
    match fourth {
        SubmitOutcome::Full { queue_length, max_queue } => {
            assert_eq!(queue_length, 2);
            assert_eq!(max_queue, 2);
        },
        _ => panic!("expected full"),
    }
}

#[test]
fn abort_of_queued_build_removes_it_cleanly() {
    let cfg = project_cfg();
    let mut state = ProjectState::new();
    submit_job(&mut state, &cfg, "LONG", 1);
    claim_worker(&mut state);
    worker_take_next(&mut state, 3, 10);
    submit_job(&mut state, &cfg, "Q", 2);
    assert_eq!(state.build_queue.len(), 1);
    let mut terminated = false;
    let r = abort(&mut state, &mut terminated, "Q");
    assert!(matches!(r, AbortOutcome::Aborted { was_running: false }));
    assert!(state.build_queue.is_empty());
    assert!(!terminated);
}

#[test]
fn late_subscriber_replays_then_streams() {
    let cfg = project_cfg();
    let mut state = ProjectState::new();
    submit_job(&mut state, &cfg, "S", 1);
    claim_worker(&mut state);
    let req = worker_take_next(&mut state, 3, 100).unwrap();
    let mut bus = LogBus::new();
    let proc = state.current_build.as_mut().unwrap();
    start_build(proc, &mut bus, 100);
    let slow = command("sleep 2; echo mid; sleep 2", "slow", "abort");
    begin_command(proc, &mut bus, &slow, &req.payload, "TS", 101);
    let sub = bus.attach();
    let frame = render_history_frame(&proc.id, &bus.subscribers[sub].delivered);
    assert!(frame.starts_with('['));
    assert!(frame.ends_with(']'));
    assert!(frame.contains("Build started"));
    assert!(frame.contains("Executing: slow"));
    assert!(!frame.contains("\"message\":\"mid\""));
    record_line(proc, &mut bus, false, "mid".to_string(), 102);
    let live = bus.poll(sub);
    let mids: Vec<&str> = live.iter().map(|l| l.message.as_str()).collect();
    assert_eq!(mids, vec!["mid"]);
}

#[test]
fn abort_flag_is_consumed_once() {
    let cfg = project_cfg();
    let mut state = ProjectState::new();
    submit_job(&mut state, &cfg, "A", 1);
    claim_worker(&mut state);
    worker_take_next(&mut state, 3, 10);
    let mut terminated = false;
    abort(&mut state, &mut terminated, "A");
    assert!(terminated);
    let proc = state.current_build.as_mut().unwrap();
    assert!(check_abort(proc, &mut terminated));
    assert!(!terminated);
    assert!(matches!(proc.status, BuildStatus::Aborted));
    assert!(!check_abort(proc, &mut terminated));
    assert!(!should_run_posts(proc.status));
}

#[test]
fn spawn_failure_fails_the_build() {
    let cfg = project_cfg();
    let mut state = ProjectState::new();
    submit_job(&mut state, &cfg, "A", 1);
    claim_worker(&mut state);
    let req = worker_take_next(&mut state, 3, 10).unwrap();
    let mut bus = LogBus::new();
    let proc = state.current_build.as_mut().unwrap();
    start_build(proc, &mut bus, 10);
    begin_command(proc, &mut bus, &cfg.build.commands[0], &req.payload, "TS", 11);
    spawn_failed(proc, &mut bus, "Failed to spawn command: no shell".to_string(), 11);
    assert!(matches!(proc.status, BuildStatus::Failed));
    let last = proc.logs.last().unwrap();
    assert_eq!(last.message, "Failed to spawn command: no shell");
}
