//! The build executor's decision machine.
//!
//! Spawning shells, reading their output and waiting on them is an
//! adapter's job; every decision — what to log at which step, when to stop,
//! how a failure or an abort changes the build — is made here, against the
//! live `BuildProcess` and its `LogBus`.  Every operation appends to the
//! log, never rewrites it, and keeps the recorded steps monotone.

use vstd::prelude::*;
use vstd::string::*;
use crate::config::{BuildConfig, CommandConfig};
use crate::logbus::{offered, LogBus};
use crate::models::{steps_monotone, BuildLog, BuildProcess, BuildStatus, LogLevel, Payload};
use crate::resolve;
use crate::strutil;

verus! {

/// One record was appended, at the build's current step, to both the
/// build's own log and the bus history, and offered to every subscriber.
pub open spec fn emitted(
    proc_pre: BuildProcess,
    proc_post: BuildProcess,
    bus_pre: LogBus,
    bus_post: LogBus,
    rec: BuildLog,
) -> bool {
    &&& proc_post.logs@ == proc_pre.logs@.push(rec)
    &&& bus_post.history@ == bus_pre.history@.push(rec)
    &&& bus_post.subscribers@.len() == bus_pre.subscribers@.len()
    &&& forall|i: int|
        0 <= i < bus_pre.subscribers@.len() ==> offered(
            #[trigger] bus_pre.subscribers@[i],
            bus_post.subscribers@[i],
            rec,
        )
    &&& bus_post.shutdown == bus_pre.shutdown
}

/// Everything of a build but its log and step counter is untouched.
pub open spec fn same_build_but_log(pre: BuildProcess, post: BuildProcess) -> bool {
    &&& post.id == pre.id
    &&& post.project_name == pre.project_name
    &&& post.unique_id == pre.unique_id
    &&& post.status == pre.status
    &&& post.total_steps == pre.total_steps
    &&& post.started_at == pre.started_at
    &&& post.socket_token == pre.socket_token
}

/// Append one record at the build's current step, to the build's log and
/// to the bus.
fn emit(
    proc: &mut BuildProcess,
    bus: &mut LogBus,
    level: LogLevel,
    message: String,
    command: Option<String>,
    now: i64,
) -> (rec: BuildLog)
    requires
        old(proc).wf(),
        old(bus).wf(),
    ensures
        rec == (BuildLog {
            timestamp: now,
            step: old(proc).current_step,
            level,
            message,
            command,
        }),
        emitted(*old(proc), *final(proc), *old(bus), *final(bus), rec),
        same_build_but_log(*old(proc), *final(proc)),
        final(proc).current_step == old(proc).current_step,
        final(proc).wf(),
        final(bus).wf(),
{
    let rec = BuildLog { timestamp: now, step: proc.current_step, level, message, command };
    proc.logs.push(rec.clone());
    bus.publish(rec.clone());
    proof {
        assert(final(proc).wf()) by {
            let logs = final(proc).logs@;
            assert(forall|i: int|
                0 <= i < logs.len() - 1 ==> logs[i] == old(proc).logs@[i]);
            assert(logs.last().step == final(proc).current_step);
        }
    }
    rec
}

/// Open a build: the start banner is the first record, at step 0.
pub fn start_build(proc: &mut BuildProcess, bus: &mut LogBus, now: i64)
    requires
        old(proc).wf(),
        old(bus).wf(),
    ensures
        emitted(
            *old(proc),
            *final(proc),
            *old(bus),
            *final(bus),
            BuildLog {
                timestamp: now,
                step: old(proc).current_step,
                level: LogLevel::Info,
                message: final(proc).logs@.last().message,
                command: None,
            },
        ),
        final(proc).logs@.last().message@ == "Build started"@,
        same_build_but_log(*old(proc), *final(proc)),
        final(proc).current_step == old(proc).current_step,
        final(proc).wf(),
        final(bus).wf(),
{
    let message = String::from_str("Build started");
    let _ = emit(proc, bus, LogLevel::Info, message, None, now);
    proof {
        reveal_strlit("Build started");
    }
}

/// Enter the next command: advance the step counter, resolve the template,
/// and announce it with the resolved command line attached.
///
/// Returns the resolved command line for the caller to hand to the shell.
pub fn begin_command(
    proc: &mut BuildProcess,
    bus: &mut LogBus,
    cmd: &CommandConfig,
    payload: &Payload,
    timestamp_text: &str,
    now: i64,
) -> (resolved: String)
    requires
        old(proc).wf(),
        old(bus).wf(),
        old(proc).current_step < old(proc).total_steps,
    ensures
        resolved@ == resolve::resolved_command(cmd.command@, *payload, timestamp_text@),
        final(proc).current_step == old(proc).current_step + 1,
        emitted(
            *old(proc),
            *final(proc),
            *old(bus),
            *final(bus),
            final(proc).logs@.last(),
        ),
        final(proc).logs@.last() == (BuildLog {
            timestamp: now,
            step: (old(proc).current_step + 1) as usize,
            level: LogLevel::Info,
            message: final(proc).logs@.last().message,
            command: Some(final(proc).logs@.last().command->Some_0),
        }),
        final(proc).logs@.last().message@ == "Executing: "@ + cmd.title@,
        final(proc).logs@.last().command->Some_0@ == resolved@,
        same_build_but_log(*old(proc), *final(proc)),
        final(proc).wf(),
        final(bus).wf(),
{
    proc.current_step = proc.current_step + 1;
    proof {
        assert(proc.wf());
    }
    let resolved = resolve::resolve_command(cmd.command.as_str(), payload, timestamp_text);
    let mut message = String::from_str("Executing: ");
    message.append(cmd.title.as_str());
    proof {
        reveal_strlit("Executing: ");
    }
    let attached = String::from_str(resolved.as_str());
    let rec = emit(proc, bus, LogLevel::Info, message, Some(attached), now);
    resolved
}


/// Enter one after-build command: announce and resolve it like a pipeline
/// command, but at the current step — the step counter is spent on the
/// pipeline and does not advance for the aftermath.
///
/// Returns the resolved command line for the caller to hand to the shell.
pub fn begin_post_command(
    proc: &mut BuildProcess,
    bus: &mut LogBus,
    cmd: &CommandConfig,
    payload: &Payload,
    timestamp_text: &str,
    now: i64,
) -> (resolved: String)
    requires
        old(proc).wf(),
        old(bus).wf(),
    ensures
        resolved@ == resolve::resolved_command(cmd.command@, *payload, timestamp_text@),
        emitted(
            *old(proc),
            *final(proc),
            *old(bus),
            *final(bus),
            final(proc).logs@.last(),
        ),
        final(proc).logs@.last() == (BuildLog {
            timestamp: now,
            step: old(proc).current_step,
            level: LogLevel::Info,
            message: final(proc).logs@.last().message,
            command: Some(final(proc).logs@.last().command->Some_0),
        }),
        final(proc).logs@.last().message@ == "Executing: "@ + cmd.title@,
        final(proc).logs@.last().command->Some_0@ == resolved@,
        same_build_but_log(*old(proc), *final(proc)),
        final(proc).current_step == old(proc).current_step,
        final(proc).wf(),
        final(bus).wf(),
{
    let resolved = resolve::resolve_command(cmd.command.as_str(), payload, timestamp_text);
    let mut message = String::from_str("Executing: ");
    message.append(cmd.title.as_str());
    proof {
        reveal_strlit("Executing: ");
    }
    let attached = String::from_str(resolved.as_str());
    let _ = emit(proc, bus, LogLevel::Info, message, Some(attached), now);
    resolved
}

/// Record one line of the running command's output: stdout lines are
/// informational, stderr lines are errors, both at the current step.
pub fn record_line(
    proc: &mut BuildProcess,
    bus: &mut LogBus,
    from_stderr: bool,
    line: String,
    now: i64,
)
    requires
        old(proc).wf(),
        old(bus).wf(),
    ensures
        emitted(
            *old(proc),
            *final(proc),
            *old(bus),
            *final(bus),
            BuildLog {
                timestamp: now,
                step: old(proc).current_step,
                level: if from_stderr {
                    LogLevel::Error
                } else {
                    LogLevel::Info
                },
                message: line,
                command: None,
            },
        ),
        same_build_but_log(*old(proc), *final(proc)),
        final(proc).current_step == old(proc).current_step,
        final(proc).wf(),
        final(bus).wf(),
{
    let level = if from_stderr {
        LogLevel::Error
    } else {
        LogLevel::Info
    };
    let _ = emit(proc, bus, level, line, None, now);
}

/// Consume the shared one-shot abort flag.
///
/// When the flag was raised, it is cleared — the abort is spent — and the
/// build is marked aborted; otherwise nothing changes.
pub fn check_abort(proc: &mut BuildProcess, terminated: &mut bool) -> (aborted: bool)
    requires
        old(proc).wf(),
    ensures
        aborted == *old(terminated),
        *final(terminated) == false,
        aborted ==> *final(proc) == (BuildProcess {
            status: BuildStatus::Aborted,
            ..*old(proc)
        }),
        !aborted ==> *final(proc) == *old(proc),
        final(proc).wf(),
{
    if *terminated {
        *terminated = false;
        proc.status = BuildStatus::Aborted;
        true
    } else {
        false
    }
}

/// The on-error policy text that stops the pipeline.
pub open spec fn on_error_aborts(s: Seq<char>) -> bool {
    s == "abort"@
}

/// Digest a command's exit: success continues silently; a failure is
/// logged, and stops the pipeline — marking the build failed — exactly
/// when the template's on-error policy says `abort`.
pub fn command_finished(
    proc: &mut BuildProcess,
    bus: &mut LogBus,
    exit_ok: bool,
    on_error: &str,
    now: i64,
) -> (stop: bool)
    requires
        old(proc).wf(),
        old(bus).wf(),
    ensures
        exit_ok ==> {
            &&& !stop
            &&& *final(proc) == *old(proc)
            &&& *final(bus) == *old(bus)
        },
        !exit_ok ==> {
            &&& stop == on_error_aborts(on_error@)
            &&& emitted(
                *old(proc),
                *final(proc),
                *old(bus),
                *final(bus),
                BuildLog {
                    timestamp: now,
                    step: old(proc).current_step,
                    level: LogLevel::Error,
                    message: final(proc).logs@.last().message,
                    command: None,
                },
            )
            &&& final(proc).logs@.last().message@ == "Command failed"@
            &&& final(proc).status == if stop {
                BuildStatus::Failed
            } else {
                old(proc).status
            }
            &&& final(proc).current_step == old(proc).current_step
            &&& final(proc).id == old(proc).id
            &&& final(proc).project_name == old(proc).project_name
            &&& final(proc).unique_id == old(proc).unique_id
            &&& final(proc).total_steps == old(proc).total_steps
            &&& final(proc).started_at == old(proc).started_at
            &&& final(proc).socket_token == old(proc).socket_token
        },
        final(proc).wf(),
        final(bus).wf(),
{
    if exit_ok {
        return false;
    }
    let message = String::from_str("Command failed");
    let _ = emit(proc, bus, LogLevel::Error, message, None, now);
    proof {
        reveal_strlit("Command failed");
    }
    if strutil::str_eq(on_error, "abort") {
        proof {
            reveal_strlit("abort");
        }
        proc.status = BuildStatus::Failed;
        true
    } else {
        proof {
            reveal_strlit("abort");
        }
        false
    }
}

/// Digest a failure to spawn the shell at all: logged like a failing
/// command, and the pipeline stops regardless of the template's policy.
pub fn spawn_failed(proc: &mut BuildProcess, bus: &mut LogBus, error_message: String, now: i64)
    requires
        old(proc).wf(),
        old(bus).wf(),
    ensures
        emitted(
            *old(proc),
            *final(proc),
            *old(bus),
            *final(bus),
            BuildLog {
                timestamp: now,
                step: old(proc).current_step,
                level: LogLevel::Error,
                message: error_message,
                command: None,
            },
        ),
        final(proc).status == BuildStatus::Failed,
        final(proc).current_step == old(proc).current_step,
        final(proc).id == old(proc).id,
        final(proc).project_name == old(proc).project_name,
        final(proc).unique_id == old(proc).unique_id,
        final(proc).total_steps == old(proc).total_steps,
        final(proc).started_at == old(proc).started_at,
        final(proc).socket_token == old(proc).socket_token,
        final(proc).wf(),
        final(bus).wf(),
{
    let _ = emit(proc, bus, LogLevel::Error, error_message, None, now);
    proc.status = BuildStatus::Failed;
}

/// Close the pipeline: a build still running has succeeded; a build
/// already failed or aborted keeps its verdict.  Afterwards the status is
/// terminal.
pub fn mark_complete(proc: &mut BuildProcess)
    requires
        old(proc).wf(),
        old(proc).status != BuildStatus::Queued,
    ensures
        final(proc).status == if old(proc).status == BuildStatus::Running {
            BuildStatus::Success
        } else {
            old(proc).status
        },
        final(proc).status.is_terminal(),
        *final(proc) == (BuildProcess { status: final(proc).status, ..*old(proc) }),
        final(proc).wf(),
{
    if matches!(proc.status, BuildStatus::Running) {
        proc.status = BuildStatus::Success;
    }
}

/// Whether the after-build commands run at all: an aborted build skips
/// them along with everything else.
pub fn should_run_posts(status: BuildStatus) -> (r: bool)
    ensures
        r == (status == BuildStatus::Success || status == BuildStatus::Failed),
{
    matches!(status, BuildStatus::Success | BuildStatus::Failed)
}

/// The after-build command list for a terminal status: the success list on
/// success, the failure list otherwise.  These templates always run with
/// continue-on-error semantics and never alter the verdict.
pub fn post_commands<'a>(build: &'a BuildConfig, status: BuildStatus) -> (r: &'a Vec<
    CommandConfig,
>)
    ensures
        *r == if status == BuildStatus::Success {
            build.run_on_success
        } else {
            build.run_on_failure
        },
{
    if matches!(status, BuildStatus::Success) {
        &build.run_on_success
    } else {
        &build.run_on_failure
    }
}

/// Within one build the recorded steps never decrease: the log of any
/// well-formed build is monotone in its `step` field.
pub proof fn lemma_log_steps_monotone(proc: BuildProcess)
    requires
        proc.wf(),
    ensures
        steps_monotone(proc.logs@),
{
}

} // verus!
