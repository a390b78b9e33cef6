//! The operations the HTTP layer invokes against the core, and the answers
//! it sends back: admission answers with their state strings and resolved
//! return fields, status queries, abort answers, and the subscription
//! replay frame.

use vstd::prelude::*;
use vstd::string::*;
use crate::config::ReturnField;
use crate::jsonfmt;
use crate::models::{
    BuildApiResponse, BuildInfo, BuildLog, BuildStatusResponse, Payload, ProjectState,
};
use crate::queue::{AbortOutcome, SubmitOutcome};
use crate::resolve;

verus! {

/// The name under which a return field is echoed: its own name when it has
/// one, else its template text.
pub open spec fn return_field_name(rf: ReturnField) -> Seq<char> {
    match rf.name {
        Some(n) => n@,
        None => rf.value@,
    }
}

/// The resolved return fields, one `(name, value)` pair per declared field,
/// in declaration order.
pub fn resolve_return_fields(
    return_fields: &Vec<ReturnField>,
    payload: &Payload,
    socket_token: &str,
    env_values: &Vec<Option<String>>,
) -> (r: Vec<(String, String)>)
    ensures
        r@.len() == return_fields@.len(),
        forall|i: int|
            0 <= i < return_fields@.len() ==> {
                &&& (#[trigger] r@[i]).0@ == return_field_name(return_fields@[i])
                &&& r@[i].1@ == resolve::resolved_variable(
                    return_fields@[i].value@,
                    *payload,
                    socket_token@,
                    if 0 <= i < env_values@.len() {
                        match env_values@[i] {
                            Some(e) => Some(e@),
                            None => None,
                        }
                    } else {
                        None
                    },
                )
            },
{
    let n = return_fields.len();
    let mut out: Vec<(String, String)> = Vec::new();
    let mut i: usize = 0;
    while i < n
        invariant
            i <= n,
            n == return_fields@.len(),
            out@.len() == i,
            forall|j: int|
                0 <= j < i ==> {
                    &&& (#[trigger] out@[j]).0@ == return_field_name(return_fields@[j])
                    &&& out@[j].1@ == resolve::resolved_variable(
                        return_fields@[j].value@,
                        *payload,
                        socket_token@,
                        if 0 <= j < env_values@.len() {
                            match env_values@[j] {
                                Some(e) => Some(e@),
                                None => None,
                            }
                        } else {
                            None
                        },
                    )
                },
        decreases n - i,
    {
        let rf = &return_fields[i];
        let env: Option<&str> = if i < env_values.len() {
            match &env_values[i] {
                Some(e) => Some(e.as_str()),
                None => None,
            }
        } else {
            None
        };
        let value = resolve::resolve_variable(rf.value.as_str(), payload, socket_token, env);
        let name = match &rf.name {
            Some(n) => n.clone(),
            None => rf.value.clone(),
        };
        out.push((name, value));
        i = i + 1;
    }
    out
}

/// The answer to one admission attempt: its state string, message, and
/// data fields, with the declared return fields resolved on success.
pub fn submit_response(
    outcome: &SubmitOutcome,
    return_fields: &Vec<ReturnField>,
    payload: &Payload,
    env_values: &Vec<Option<String>>,
) -> (r: BuildApiResponse)
    ensures
        match *outcome {
            SubmitOutcome::Unauthorized => {
                &&& !r.success
                &&& r.state@ == "unauthorized"@
                &&& r.data@.len() == 0
            },
            SubmitOutcome::Missing { .. } => {
                &&& !r.success
                &&& r.state@ == "missing"@
                &&& r.data@.len() == 0
            },
            SubmitOutcome::AlreadyRunning { socket_token: ref t } => {
                &&& !r.success
                &&& r.state@ == "already_running"@
                &&& r.data@.len() == 1
                &&& r.data@[0].0@ == "socket_token"@
                &&& r.data@[0].1@ == t@
            },
            SubmitOutcome::AlreadyRunningOtherProject => {
                &&& !r.success
                &&& r.state@ == "already_running_other_project"@
                &&& r.data@.len() == 0
            },
            SubmitOutcome::Already { socket_token: ref t } => {
                &&& !r.success
                &&& r.state@ == "already"@
                &&& r.data@.len() == 1
                &&& r.data@[0].0@ == "socket_token"@
                &&& r.data@[0].1@ == t@
            },
            SubmitOutcome::Full { queue_length, max_queue } => {
                &&& !r.success
                &&& r.state@ == "full"@
                &&& r.data@.len() == 2
                &&& r.data@[0].0@ == "queue_length"@
                &&& r.data@[0].1@ == jsonfmt::dec_rep(queue_length as nat)
                &&& r.data@[1].0@ == "max_queue"@
                &&& r.data@[1].1@ == jsonfmt::dec_rep(max_queue as nat)
            },
            SubmitOutcome::Building { build_id: ref b, socket_token: ref t } => {
                &&& r.success
                &&& r.state@ == "building"@
                &&& r.data@.len() == 2 + return_fields@.len()
                &&& r.data@[0].0@ == "build_id"@
                &&& r.data@[0].1@ == b@
                &&& r.data@[1].0@ == "socket_token"@
                &&& r.data@[1].1@ == t@
                &&& forall|i: int|
                    0 <= i < return_fields@.len() ==> {
                        &&& (#[trigger] r.data@[2 + i]).0@ == return_field_name(
                            return_fields@[i],
                        )
                        &&& r.data@[2 + i].1@ == resolve::resolved_variable(
                            return_fields@[i].value@,
                            *payload,
                            t@,
                            if 0 <= i < env_values@.len() {
                                match env_values@[i] {
                                    Some(e) => Some(e@),
                                    None => None,
                                }
                            } else {
                                None
                            },
                        )
                    }
            },
        },
{
    match outcome {
        SubmitOutcome::Unauthorized => BuildApiResponse {
            success: false,
            message: String::from_str("Unauthorized"),
            state: String::from_str("unauthorized"),
            data: Vec::new(),
        },
        SubmitOutcome::Missing { field } => {
            let mut message = String::from_str("Missing required field: ");
            message.append(field.as_str());
            BuildApiResponse {
                success: false,
                message,
                state: String::from_str("missing"),
                data: Vec::new(),
            }
        },
        SubmitOutcome::AlreadyRunning { socket_token } => {
            let mut data: Vec<(String, String)> = Vec::new();
            data.push((String::from_str("socket_token"), socket_token.clone()));
            BuildApiResponse {
                success: false,
                message: String::from_str("Build already in progress"),
                state: String::from_str("already_running"),
                data,
            }
        },
        SubmitOutcome::AlreadyRunningOtherProject => BuildApiResponse {
            success: false,
            message: String::from_str("Build already in progress for other project"),
            state: String::from_str("already_running_other_project"),
            data: Vec::new(),
        },
        SubmitOutcome::Already { socket_token } => {
            let mut data: Vec<(String, String)> = Vec::new();
            data.push((String::from_str("socket_token"), socket_token.clone()));
            BuildApiResponse {
                success: false,
                message: String::from_str("This build is already in pending"),
                state: String::from_str("already"),
                data,
            }
        },
        SubmitOutcome::Full { queue_length, max_queue } => {
            let mut data: Vec<(String, String)> = Vec::new();
            data.push((String::from_str("queue_length"), jsonfmt::usize_string(*queue_length)));
            data.push((String::from_str("max_queue"), jsonfmt::u64_string(*max_queue as u64)));
            BuildApiResponse {
                success: false,
                message: String::from_str("Build queue is full"),
                state: String::from_str("full"),
                data,
            }
        },
        SubmitOutcome::Building { build_id, socket_token } => {
            let mut data: Vec<(String, String)> = Vec::new();
            data.push((String::from_str("build_id"), build_id.clone()));
            data.push((String::from_str("socket_token"), socket_token.clone()));
            let mut fields = resolve_return_fields(
                return_fields,
                payload,
                socket_token.as_str(),
                env_values,
            );
            data.append(&mut fields);
            BuildApiResponse {
                success: true,
                message: String::from_str("Build queued successfully"),
                state: String::from_str("building"),
                data,
            }
        },
    }
}


/// The health answer: the fixed healthy marker beside the clock's reading.
pub fn health_check(now: i64) -> (r: String)
    ensures
        r@ == "{\"status\":\"healthy\",\"timestamp\":"@ + jsonfmt::int_rep(now as int)
            + "}"@,
{
    let mut out = String::from_str("{\"status\":\"healthy\",\"timestamp\":");
    let ts = jsonfmt::i64_string(now);
    out.append(ts.as_str());
    out.append("}");
    proof {
        assert(out@ =~= "{\"status\":\"healthy\",\"timestamp\":"@ + jsonfmt::int_rep(
            now as int,
        ) + "}"@);
    }
    out
}

/// The answer to a status query: whether a build runs, how long the queue
/// is, and the running build's public shape.
pub fn status_response(state: &ProjectState) -> (r: BuildStatusResponse)
    ensures
        r.is_building == (state.current_build is Some),
        r.queue_length == state.build_queue@.len(),
        match state.current_build {
            Some(b) => {
                &&& r.current_build is Some
                &&& {
                    let info = r.current_build->Some_0;
                    &&& info.id == b.id
                    &&& info.status == b.status
                    &&& info.current_step == b.current_step
                    &&& info.total_steps == b.total_steps
                    &&& info.socket_token == b.socket_token
                }
            },
            None => r.current_build is None,
        },
{
    match &state.current_build {
        Some(b) => BuildStatusResponse {
            is_building: true,
            queue_length: state.build_queue.len(),
            current_build: Some(
                BuildInfo {
                    id: b.id.clone(),
                    status: b.status,
                    current_step: b.current_step,
                    total_steps: b.total_steps,
                    socket_token: b.socket_token.clone(),
                },
            ),
        },
        None => BuildStatusResponse {
            is_building: false,
            queue_length: state.build_queue.len(),
            current_build: None,
        },
    }
}

/// The answer to an abort request.
pub fn abort_response(outcome: &AbortOutcome) -> (r: BuildApiResponse)
    ensures
        match *outcome {
            AbortOutcome::Aborted { .. } => r.success && r.state@ == "aborted"@,
            AbortOutcome::NotFound => !r.success && r.state@ == "not_found"@,
        },
        r.data@.len() == 0,
{
    match outcome {
        AbortOutcome::Aborted { was_running } => BuildApiResponse {
            success: true,
            message: if *was_running {
                String::from_str("Build is running; killing it")
            } else {
                String::from_str("Build removed from the queue")
            },
            state: String::from_str("aborted"),
            data: Vec::new(),
        },
        AbortOutcome::NotFound => BuildApiResponse {
            success: false,
            message: String::from_str("No build found"),
            state: String::from_str("not_found"),
            data: Vec::new(),
        },
    }
}

/// The answer to a cleanup request: the operation is a declared no-op.
pub fn cleanup_response() -> (r: BuildApiResponse)
    ensures
        r.success,
        r.state@ == "success"@,
        r.data@.len() == 0,
{
    BuildApiResponse {
        success: true,
        message: String::from_str("Cleanup completed"),
        state: String::from_str("success"),
        data: Vec::new(),
    }
}

/// Whether a log-stream subscription may attach: only the running build
/// can be subscribed, and only with its own socket token.
pub fn subscribe_allowed(state: &ProjectState, token: &str) -> (r: bool)
    ensures
        r == match state.current_build {
            Some(b) => b.socket_token@ == token@,
            None => false,
        },
{
    match &state.current_build {
        Some(b) => crate::strutil::str_eq(b.socket_token.as_str(), token),
        None => false,
    }
}

/// The replay sent to a subscriber on attach: every historical record, as
/// one JSON array of frames, oldest first.
pub open spec fn history_frame_json(build_id: Seq<char>, logs: Seq<BuildLog>) -> Seq<char>
    decreases logs.len(),
{
    if logs.len() == 0 {
        Seq::empty()
    } else if logs.len() == 1 {
        jsonfmt::log_frame_json(build_id, logs[0])
    } else {
        jsonfmt::log_frame_json(build_id, logs[0]) + seq![','] + history_frame_json(
            build_id,
            logs.skip(1),
        )
    }
}

proof fn lemma_history_frame_push(build_id: Seq<char>, logs: Seq<BuildLog>, rec: BuildLog)
    ensures
        history_frame_json(build_id, logs.push(rec)) == if logs.len() == 0 {
            jsonfmt::log_frame_json(build_id, rec)
        } else {
            history_frame_json(build_id, logs) + seq![','] + jsonfmt::log_frame_json(
                build_id,
                rec,
            )
        },
    decreases logs.len(),
{
    let whole = logs.push(rec);
    if logs.len() == 0 {
        assert(whole[0] == rec);
        assert(whole.len() == 1);
    } else {
        assert(whole[0] == logs[0]);
        assert(whole.skip(1) =~= logs.skip(1).push(rec));
        lemma_history_frame_push(build_id, logs.skip(1), rec);
        if logs.len() == 1 {
            assert(logs.skip(1).len() == 0);
            assert(history_frame_json(build_id, logs) =~= jsonfmt::log_frame_json(
                build_id,
                logs[0],
            ));
        }
    }
}

/// Render the replay array frame for a list of records.
pub fn render_history_frame(build_id: &str, logs: &Vec<BuildLog>) -> (r: String)
    ensures
        r@ == seq!['['] + history_frame_json(build_id@, logs@) + seq![']'],
{
    let mut out = String::from_str("[");
    proof {
        reveal_strlit("[");
    }
    let n = logs.len();
    let mut i: usize = 0;
    while i < n
        invariant
            i <= n,
            n == logs@.len(),
            out@ == seq!['['] + history_frame_json(build_id@, logs@.subrange(0, i as int)),
        decreases n - i,
    {
        if i > 0 {
            out.append(",");
            proof {
                reveal_strlit(",");
            }
        }
        let frame = jsonfmt::render_log_frame(build_id, &logs[i]);
        out.append(frame.as_str());
        proof {
            lemma_history_frame_push(build_id@, logs@.subrange(0, i as int), logs@[i as int]);
            assert(logs@.subrange(0, i as int).push(logs@[i as int]) =~= logs@.subrange(
                0,
                i + 1,
            ));
            assert(out@ =~= seq!['['] + history_frame_json(build_id@, logs@.subrange(0, i + 1)));
        }
        i = i + 1;
    }
    out.append("]");
    proof {
        reveal_strlit("]");
        assert(logs@.subrange(0, n as int) =~= logs@);
        assert(out@ =~= seq!['['] + history_frame_json(build_id@, logs@) + seq![']']);
    }
    out
}

} // verus!
