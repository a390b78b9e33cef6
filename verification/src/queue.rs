//! The per-project build queue: admission with deduplication and bounded
//! pending slots, the singleton worker's dequeue protocol, and abortion.
//!
//! Every operation keeps `ProjectState::wf` true: no two pending builds share
//! a dedup key, the running build's key is never also queued, and a running
//! build implies a live worker.

use vstd::prelude::*;
use crate::config::ProjectConfig;
use crate::models::{
    same_result, BuildProcess, BuildRequest, BuildResult, BuildStatus, Payload, ProjectState,
};
use crate::strutil;

verus! {

/// The decision of one admission attempt.
#[derive(Debug)]
pub enum SubmitOutcome {
    /// The caller failed the project's authorization policy.
    Unauthorized,
    /// A declared payload field, or the dedup key, is absent; names it.
    Missing { field: String },
    /// Queueing is disabled and a build is running; echoes its socket token
    /// so the caller can tail it.
    AlreadyRunning { socket_token: String },
    /// Kept for compatibility with the wire protocol; cannot arise while the
    /// running build always belongs to its own project.
    AlreadyRunningOtherProject,
    /// The same dedup key is already queued or running; echoes the socket
    /// token of that build.
    Already { socket_token: String },
    /// The queue is at capacity.
    Full { queue_length: usize, max_queue: u32 },
    /// Admitted and enqueued; echoes the fresh identifiers.
    Building { build_id: String, socket_token: String },
}

/// The admission decision stripped of its data, for stating contracts.
#[derive(Clone, Copy, Debug, PartialEq, Eq, Structural)]
pub enum SubmitDecision {
    Unauthorized,
    Missing,
    AlreadyRunning,
    AlreadyRunningOtherProject,
    Already,
    Full,
    Building,
}

impl SubmitOutcome {
    /// Which decision this outcome carries.
    pub open spec fn kind(self) -> SubmitDecision {
        match self {
            SubmitOutcome::Unauthorized => SubmitDecision::Unauthorized,
            SubmitOutcome::Missing { .. } => SubmitDecision::Missing,
            SubmitOutcome::AlreadyRunning { .. } => SubmitDecision::AlreadyRunning,
            SubmitOutcome::AlreadyRunningOtherProject => SubmitDecision::AlreadyRunningOtherProject,
            SubmitOutcome::Already { .. } => SubmitDecision::Already,
            SubmitOutcome::Full { .. } => SubmitDecision::Full,
            SubmitOutcome::Building { .. } => SubmitDecision::Building,
        }
    }
}

/// A field name with every leading `$` removed.
pub open spec fn strip_dollars(s: Seq<char>) -> Seq<char>
    decreases s.len(),
{
    if s.len() > 0 && s[0] == '$' {
        strip_dollars(s.skip(1))
    } else {
        s
    }
}

/// Every field the endpoint declares is present in the payload.
pub open spec fn required_ok(fields: Seq<String>, payload: Payload) -> bool {
    forall|i: int|
        0 <= i < fields.len() ==> payload.spec_has_key(strip_dollars(#[trigger] fields[i]@))
}

/// The dedup key's value, when the payload carries it as a string.
pub open spec fn unique_id_of(cfg: ProjectConfig, payload: Payload) -> Option<Seq<char>> {
    payload.spec_get_text(cfg.unique_build_key@)
}

/// The admission table: the decision is a pure function of the project
/// configuration, the project state, the caller's payload, and the
/// authorization verdict.
pub open spec fn submit_decision(
    cfg: ProjectConfig,
    project_name: Seq<char>,
    state: ProjectState,
    payload: Payload,
    authorized: bool,
) -> SubmitDecision {
    if !authorized {
        SubmitDecision::Unauthorized
    } else if !required_ok(cfg.api.build.payload@, payload) {
        SubmitDecision::Missing
    } else if unique_id_of(cfg, payload) is None {
        SubmitDecision::Missing
    } else if !cfg.allow_multi_build && state.current_build is Some {
        SubmitDecision::AlreadyRunning
    } else if cfg.allow_multi_build && state.current_build is Some
        && state.current_build->Some_0.project_name@ != project_name {
        SubmitDecision::AlreadyRunningOtherProject
    } else if state.id_present(unique_id_of(cfg, payload)->Some_0) {
        SubmitDecision::Already
    } else if state.build_queue@.len() >= cfg.max_pending_build {
        SubmitDecision::Full
    } else {
        SubmitDecision::Building
    }
}

/// The socket token echoed with an `Already` answer: the token of the first
/// queued build with this key, else the running build's.
pub open spec fn present_token(state: ProjectState, uid: Seq<char>) -> Seq<char> {
    if state.id_queued(uid) {
        state.build_queue@[first_queued_index(state, uid)].socket_token@
    } else {
        state.current_build->Some_0.socket_token@
    }
}

/// The first queue position holding this dedup key.
pub open spec fn first_queued_index(state: ProjectState, uid: Seq<char>) -> int {
    choose|i: int|
        0 <= i < state.build_queue@.len() && #[trigger] state.build_queue@[i].unique_id@ == uid
            && forall|j: int| 0 <= j < i ==> state.build_queue@[j].unique_id@ != uid
}

/// The name reported with a `Missing` answer: the first absent declared
/// field, else the dedup key itself.
pub open spec fn missing_field_name(cfg: ProjectConfig, payload: Payload) -> Seq<char> {
    if !required_ok(cfg.api.build.payload@, payload) {
        strip_dollars(first_missing_field_name(cfg.api.build.payload@, payload))
    } else {
        cfg.unique_build_key@
    }
}

/// The first declared field the payload does not carry.
pub open spec fn first_missing_field_name(fields: Seq<String>, payload: Payload) -> Seq<char> {
    {
        let i = choose|i: int|
            0 <= i < fields.len() && !payload.spec_has_key(
                strip_dollars(#[trigger] fields[i]@),
            ) && forall|j: int|
                0 <= j < i ==> payload.spec_has_key(strip_dollars(#[trigger] fields[j]@));
        fields[i]@
    }
}

/// A copy of `s` with every leading `$` removed.
pub fn strip_dollars_exec(s: &str) -> (r: String)
    ensures
        r@ == strip_dollars(s@),
{
    let n = s.unicode_len();
    let mut i: usize = 0;
    proof {
        assert(s@.skip(0) =~= s@);
    }
    while i < n && s.get_char(i) == '$'
        invariant
            i <= n,
            n == s@.len(),
            strip_dollars(s@) == strip_dollars(s@.skip(i as int)),
            forall|j: int| 0 <= j < i ==> s@[j] == '$',
        decreases n - i,
    {
        proof {
            assert(s@.skip(i as int)[0] == s@[i as int]);
            assert(s@.skip(i as int).skip(1) =~= s@.skip(i + 1));
        }
        i = i + 1;
    }
    proof {
        if i < n {
            assert(s@.skip(i as int)[0] == s@[i as int]);
        }
    }
    strutil::str_suffix(s, i)
}

/// The first declared field absent from the payload, stripped of `$`.
pub fn first_missing_field(fields: &Vec<String>, payload: &Payload) -> (r: Option<String>)
    ensures
        r is None <==> required_ok(fields@, *payload),
        r matches Some(f) ==> f@ == strip_dollars(first_missing_field_name(fields@, *payload)),
{
    let n = fields.len();
    let mut i: usize = 0;
    while i < n
        invariant
            i <= n,
            n == fields@.len(),
            forall|j: int|
                0 <= j < i ==> payload.spec_has_key(strip_dollars(#[trigger] fields@[j]@)),
        decreases n - i,
    {
        let name = strip_dollars_exec(fields[i].as_str());
        if !payload.contains_key(name.as_str()) {
            proof {
                let wi = i as int;
                assert(0 <= wi < fields@.len() && !payload.spec_has_key(
                    strip_dollars(fields@[wi]@),
                ) && forall|j: int|
                    0 <= j < wi ==> payload.spec_has_key(strip_dollars(#[trigger] fields@[j]@)));
                let c = choose|k: int|
                    0 <= k < fields@.len() && !payload.spec_has_key(
                        strip_dollars(#[trigger] fields@[k]@),
                    ) && forall|j: int|
                        0 <= j < k ==> payload.spec_has_key(strip_dollars(#[trigger] fields@[j]@));
                if c != wi {
                    assert(payload.spec_has_key(strip_dollars(fields@[if c < wi {
                        c
                    } else {
                        wi
                    }]@)));
                }
            }
            return Some(name);
        }
        i = i + 1;
    }
    None
}

/// The first queue position holding this dedup key.
pub fn find_in_queue(queue: &Vec<BuildRequest>, uid: &str) -> (r: Option<usize>)
    ensures
        match r {
            Some(i) => i < queue@.len() && queue@[i as int].unique_id@ == uid@ && forall|j: int|
                0 <= j < i ==> queue@[j].unique_id@ != uid@,
            None => forall|j: int| 0 <= j < queue@.len() ==> queue@[j].unique_id@ != uid@,
        },
{
    let n = queue.len();
    let mut i: usize = 0;
    while i < n
        invariant
            i <= n,
            n == queue@.len(),
            forall|j: int| 0 <= j < i ==> queue@[j].unique_id@ != uid@,
        decreases n - i,
    {
        if strutil::str_eq(queue[i].unique_id.as_str(), uid) {
            return Some(i);
        }
        i = i + 1;
    }
    None
}

/// Decide admission of one build request and, when admitted, enqueue it.
///
/// The decision follows the admission table (`submit_decision`); a rejection
/// leaves the state untouched; an admission appends exactly one request, so
/// the queue never exceeds `max_pending_build` and the dedup keys across
/// queue and running build stay distinct.
pub fn submit(
    state: &mut ProjectState,
    cfg: &ProjectConfig,
    project_name: String,
    payload: Payload,
    authorized: bool,
    build_id: String,
    socket_token: String,
    now: i64,
) -> (r: SubmitOutcome)
    ensures
        r.kind() == submit_decision(*cfg, project_name@, *old(state), payload, authorized),
        r matches SubmitOutcome::Missing { field } ==> field@ == missing_field_name(
            *cfg,
            payload,
        ),
        r matches SubmitOutcome::AlreadyRunning { socket_token: t }
            ==> t@ == old(state).current_build->Some_0.socket_token@,
        r matches SubmitOutcome::Already { socket_token: t } ==> t@ == present_token(
            *old(state),
            unique_id_of(*cfg, payload)->Some_0,
        ),
        r matches SubmitOutcome::Full { queue_length, max_queue }
            ==> queue_length == old(state).build_queue@.len() && max_queue == cfg.max_pending_build,
        r matches SubmitOutcome::Building { build_id: b, socket_token: t } ==> b == build_id && t
            == socket_token,
        match r {
            SubmitOutcome::Building { .. } => {
                &&& final(state).build_queue@.len() == old(state).build_queue@.len() + 1
                &&& final(state).build_queue@.subrange(
                    0,
                    old(state).build_queue@.len() as int,
                ) == old(state).build_queue@
                &&& {
                    let req = final(state).build_queue@.last();
                    &&& req.id == build_id
                    &&& req.project_name == project_name
                    &&& req.unique_id@ == unique_id_of(*cfg, payload)->Some_0
                    &&& req.payload == payload
                    &&& req.created_at == now
                    &&& req.socket_token == socket_token
                    &&& req.files@.len() == 0
                }
                &&& final(state).current_build == old(state).current_build
                &&& final(state).build_history == old(state).build_history
                &&& final(state).worker_alive == old(state).worker_alive
            },
            _ => *final(state) == *old(state),
        },
        old(state).build_queue@.len() <= cfg.max_pending_build
            ==> final(state).build_queue@.len() <= cfg.max_pending_build,
        old(state).wf() ==> final(state).wf(),
{
    if !authorized {
        return SubmitOutcome::Unauthorized;
    }
    if let Some(field) = first_missing_field(&cfg.api.build.payload, &payload) {
        return SubmitOutcome::Missing { field };
    }
    let uid = match payload.get_text(cfg.unique_build_key.as_str()) {
        Some(u) => u,
        None => {
            return SubmitOutcome::Missing { field: cfg.unique_build_key.clone() };
        },
    };
    if !cfg.allow_multi_build {
        if let Some(cur) = &state.current_build {
            return SubmitOutcome::AlreadyRunning { socket_token: cur.socket_token.clone() };
        }
    } else {
        if let Some(cur) = &state.current_build {
            if !strutil::str_eq(cur.project_name.as_str(), project_name.as_str()) {
                return SubmitOutcome::AlreadyRunningOtherProject;
            }
        }
    }
    if let Some(i) = find_in_queue(&state.build_queue, uid.as_str()) {
        proof {
            assert(state.id_queued(uid@));
            assert(first_queued_index(*state, uid@) == i as int) by {
                let c = first_queued_index(*state, uid@);
                assert(0 <= c < state.build_queue@.len()
                    && state.build_queue@[c].unique_id@ == uid@ && forall|j: int|
                    0 <= j < c ==> state.build_queue@[j].unique_id@ != uid@);
            }
        }
        return SubmitOutcome::Already { socket_token: state.build_queue[i].socket_token.clone() };
    }
    if let Some(cur) = &state.current_build {
        if strutil::str_eq(cur.unique_id.as_str(), uid.as_str()) {
            return SubmitOutcome::Already { socket_token: cur.socket_token.clone() };
        }
    }
    if state.build_queue.len() >= cfg.max_pending_build as usize {
        return SubmitOutcome::Full {
            queue_length: state.build_queue.len(),
            max_queue: cfg.max_pending_build,
        };
    }
    let req = BuildRequest {
        id: build_id.clone(),
        project_name,
        unique_id: uid,
        payload,
        files: Vec::new(),
        created_at: now,
        socket_token: socket_token.clone(),
    };
    state.build_queue.push(req);
    proof {
        assert(final(state).build_queue@.subrange(0, old(state).build_queue@.len() as int)
            =~= old(state).build_queue@);
        if old(state).wf() {
            assert(final(state).wf()) by {
                let q = final(state).build_queue@;
                assert(forall|i: int, j: int|
                    0 <= i < j < q.len()
                        ==> #[trigger] q[i].unique_id@ != #[trigger] q[j].unique_id@) by {
                    assert(forall|i: int|
                        0 <= i < q.len() - 1 ==> q[i] == old(state).build_queue@[i]);
                }
                if final(state).current_build is Some {
                    let b = final(state).current_build->Some_0;
                    assert(!final(state).id_queued(b.unique_id@)) by {
                        assert(forall|i: int|
                            0 <= i < q.len() - 1 ==> q[i] == old(state).build_queue@[i]);
                        assert(q.last().unique_id@ != b.unique_id@);
                    }
                }
            }
        }
    }
    SubmitOutcome::Building { build_id, socket_token }
}

/// Claim the project's singleton worker slot.
///
/// Returns whether the caller must start a worker: true exactly when none
/// was alive.  Claiming while one runs changes nothing, so at most one
/// worker ever runs per project.
pub fn claim_worker(state: &mut ProjectState) -> (spawn: bool)
    ensures
        spawn == !old(state).worker_alive,
        final(state).worker_alive,
        final(state).build_queue == old(state).build_queue,
        final(state).current_build == old(state).current_build,
        final(state).build_history == old(state).build_history,
        old(state).wf() ==> final(state).wf(),
{
    let spawn = !state.worker_alive;
    state.worker_alive = true;
    spawn
}

/// One round of the worker loop: pop the queue head and make it the running
/// build, or put the worker to sleep when the queue is empty.
///
/// Dequeue is strictly FIFO: the request taken is the oldest one, and it
/// becomes the running build with a fresh, empty log.
pub fn worker_take_next(state: &mut ProjectState, total_steps: usize, now: i64) -> (r: Option<
    BuildRequest,
>)
    requires
        old(state).current_build is None,
        old(state).worker_alive,
    ensures
        old(state).build_queue@.len() == 0 ==> {
            &&& r is None
            &&& !final(state).worker_alive
            &&& final(state).build_queue == old(state).build_queue
            &&& final(state).current_build == old(state).current_build
            &&& final(state).build_history == old(state).build_history
        },
        old(state).build_queue@.len() > 0 ==> {
            &&& r == Some(old(state).build_queue@[0])
            &&& final(state).build_queue@ == old(state).build_queue@.skip(1)
            &&& final(state).worker_alive
            &&& final(state).build_history == old(state).build_history
            &&& {
                let b = final(state).current_build->Some_0;
                &&& final(state).current_build is Some
                &&& b.id == old(state).build_queue@[0].id
                &&& b.project_name == old(state).build_queue@[0].project_name
                &&& b.unique_id == old(state).build_queue@[0].unique_id
                &&& b.status == BuildStatus::Running
                &&& b.current_step == 0
                &&& b.total_steps == total_steps
                &&& b.started_at == now
                &&& b.socket_token == old(state).build_queue@[0].socket_token
                &&& b.logs@.len() == 0
            }
        },
        old(state).wf() ==> final(state).wf(),
{
    if state.build_queue.len() == 0 {
        state.worker_alive = false;
        return None;
    }
    let req = state.build_queue.remove(0);
    let process = BuildProcess {
        id: req.id.clone(),
        project_name: req.project_name.clone(),
        unique_id: req.unique_id.clone(),
        status: BuildStatus::Running,
        current_step: 0,
        total_steps,
        started_at: now,
        socket_token: req.socket_token.clone(),
        logs: Vec::new(),
    };
    state.current_build = Some(process);
    proof {
        if old(state).wf() {
            assert(final(state).wf()) by {
                let q = final(state).build_queue@;
                assert(forall|i: int| 0 <= i < q.len() ==> q[i] == old(state).build_queue@[i + 1]);
                let b = final(state).current_build->Some_0;
                assert(!final(state).id_queued(b.unique_id@));
            }
        }
    }
    Some(req)
}


/// Archive the finished build: clear the running slot and append its result
/// to the history, ready for the worker's next round.
///
/// The result carries exactly the logs the executor appended to the live
/// build, so history archives what the subscribers saw.
pub fn worker_finish(state: &mut ProjectState, completed_at: i64) -> (r: Option<BuildResult>)
    ensures
        old(state).current_build is None ==> r is None && *final(state) == *old(state),
        old(state).current_build matches Some(b) ==> {
            &&& r is Some
            &&& {
                let res = r->Some_0;
                &&& res.id == b.id
                &&& res.project_name == b.project_name
                &&& res.status == b.status
                &&& res.started_at == b.started_at
                &&& res.completed_at == completed_at
                &&& res.logs == b.logs
                &&& res.duration_seconds == (if completed_at >= b.started_at {
                    (completed_at - b.started_at) as u64
                } else {
                    0u64
                })
            }
            &&& final(state).current_build is None
            &&& final(state).build_history@.len() == old(state).build_history@.len() + 1
            &&& final(state).build_history@.subrange(0, old(state).build_history@.len() as int)
                == old(state).build_history@
            &&& same_result(final(state).build_history@.last(), r->Some_0)
            &&& final(state).build_queue == old(state).build_queue
            &&& final(state).worker_alive == old(state).worker_alive
        },
        old(state).wf() ==> final(state).wf(),
{
    let cur = state.current_build.take();
    match cur {
        None => None,
        Some(b) => {
            let duration_seconds: u64 = if completed_at >= b.started_at {
                (completed_at as i128 - b.started_at as i128) as u64
            } else {
                0
            };
            let res = BuildResult {
                id: b.id,
                project_name: b.project_name,
                status: b.status,
                started_at: b.started_at,
                completed_at,
                logs: b.logs,
                duration_seconds,
            };
            state.build_history.push(res.clone());
            proof {
                assert(final(state).build_history@.subrange(
                    0,
                    old(state).build_history@.len() as int,
                ) =~= old(state).build_history@);
            }
            Some(res)
        },
    }
}


/// Submitting the same dedup key twice in succession is idempotent: when
/// the first submission was admitted and enqueued, the second — arriving
/// before the first starts — is answered `already`, whatever else the
/// payload says.
pub proof fn lemma_submit_idempotent(
    cfg: ProjectConfig,
    project_name: Seq<char>,
    pre: ProjectState,
    mid: ProjectState,
    payload: Payload,
)
    requires
        submit_decision(cfg, project_name, pre, payload, true) == SubmitDecision::Building,
        mid.build_queue@.len() == pre.build_queue@.len() + 1,
        mid.build_queue@.subrange(0, pre.build_queue@.len() as int) == pre.build_queue@,
        mid.build_queue@.last().unique_id@ == unique_id_of(cfg, payload)->Some_0,
        mid.current_build == pre.current_build,
    ensures
        submit_decision(cfg, project_name, mid, payload, true) == SubmitDecision::Already,
{
    let uid = unique_id_of(cfg, payload)->Some_0;
    assert(mid.build_queue@[mid.build_queue@.len() - 1].unique_id@ == uid);
    assert(mid.id_queued(uid));
}

/// A running build implies a live worker: the worker that dequeued it has
/// not exited, so exactly one executor task exists for the project.
pub proof fn lemma_running_build_has_worker(state: ProjectState)
    requires
        state.wf(),
        state.current_build is Some,
    ensures
        state.worker_alive,
{
}


/// Deduplication is an invariant, not a one-off check: in every well-formed
/// project state the dedup keys across the queue and the running build are
/// pairwise distinct.
pub proof fn lemma_no_duplicate_ids(state: ProjectState)
    requires
        state.wf(),
    ensures
        forall|i: int, j: int|
            0 <= i < j < state.build_queue@.len()
                ==> #[trigger] state.build_queue@[i].unique_id@
                != #[trigger] state.build_queue@[j].unique_id@,
        state.current_build matches Some(b) ==> !state.id_queued(b.unique_id@),
{
}

/// Removal of the first queue entry with a given dedup key keeps the state
/// well formed.
proof fn lemma_remove_keeps_wf(pre: ProjectState, post: ProjectState, i: int)
    requires
        pre.wf(),
        0 <= i < pre.build_queue@.len(),
        post.build_queue@ == pre.build_queue@.remove(i),
        post.current_build == pre.current_build,
        post.worker_alive == pre.worker_alive,
    ensures
        post.wf(),
{
    let q = post.build_queue@;
    assert(forall|k: int|
        0 <= k < q.len() ==> q[k] == pre.build_queue@[if k < i {
            k
        } else {
            k + 1
        }]);
    if post.current_build is Some {
        let b = post.current_build->Some_0;
        assert(!post.id_queued(b.unique_id@)) by {
            if post.id_queued(b.unique_id@) {
                let k = choose|k: int|
                    0 <= k < q.len() && #[trigger] q[k].unique_id@ == b.unique_id@;
                assert(pre.build_queue@[if k < i {
                    k
                } else {
                    k + 1
                }].unique_id@ == b.unique_id@);
            }
        }
    }
}

/// What an abort request decided.
#[derive(Debug)]
pub enum AbortOutcome {
    /// The build was found; `was_running` tells the caller whether a child
    /// process must be killed (true) or the request was still queued (false).
    Aborted { was_running: bool },
    /// No queued or running build carries the key.
    NotFound,
}

/// Abort the build with this dedup key: a queued request is removed cleanly;
/// the running build raises the shared one-shot abort flag for the executor
/// to consume; anything else is not found.
pub fn abort(state: &mut ProjectState, terminated: &mut bool, uid: &str) -> (r: AbortOutcome)
    ensures
        match r {
            AbortOutcome::Aborted { was_running: false } => {
                &&& old(state).id_queued(uid@)
                &&& {
                    let i = first_queued_index(*old(state), uid@);
                    final(state).build_queue@ == old(state).build_queue@.remove(i)
                }
                &&& final(state).current_build == old(state).current_build
                &&& final(state).build_history == old(state).build_history
                &&& final(state).worker_alive == old(state).worker_alive
                &&& *final(terminated) == *old(terminated)
            },
            AbortOutcome::Aborted { was_running: true } => {
                &&& !old(state).id_queued(uid@)
                &&& old(state).id_running(uid@)
                &&& *final(state) == *old(state)
                &&& *final(terminated)
            },
            AbortOutcome::NotFound => {
                &&& !old(state).id_present(uid@)
                &&& *final(state) == *old(state)
                &&& *final(terminated) == *old(terminated)
            },
        },
        old(state).wf() ==> final(state).wf(),
{
    if let Some(i) = find_in_queue(&state.build_queue, uid) {
        proof {
            assert(state.id_queued(uid@));
            assert(first_queued_index(*state, uid@) == i as int) by {
                let c = first_queued_index(*state, uid@);
                assert(0 <= c < state.build_queue@.len()
                    && state.build_queue@[c].unique_id@ == uid@ && forall|j: int|
                    0 <= j < c ==> state.build_queue@[j].unique_id@ != uid@);
            }
        }
        let _removed = state.build_queue.remove(i);
        proof {
            if old(state).wf() {
                lemma_remove_keeps_wf(*old(state), *state, i as int);
            }
        }
        return AbortOutcome::Aborted { was_running: false };
    }
    let is_current = match &state.current_build {
        Some(cur) => strutil::str_eq(cur.unique_id.as_str(), uid),
        None => false,
    };
    if is_current {
        *terminated = true;
        return AbortOutcome::Aborted { was_running: true };
    }
    AbortOutcome::NotFound
}

} // verus!
