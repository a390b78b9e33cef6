//! The data model of the orchestration core: build requests, live build
//! processes, archived results, log records, and the per-project state.
//!
//! Timestamps are carried as Unix seconds; formatting them is left to the
//! clock adapters.

use vstd::prelude::*;
use crate::config::Config;

verus! {

/// A build is in exactly one of these states from admission to archival.
#[derive(Clone, Copy, Debug, PartialEq, Eq, Structural)]
pub enum BuildStatus {
    Queued,
    Running,
    Success,
    Failed,
    Aborted,
}

impl BuildStatus {
    /// A terminal status is one the executor never leaves.
    pub open spec fn is_terminal(self) -> bool {
        self == BuildStatus::Success || self == BuildStatus::Failed || self == BuildStatus::Aborted
    }
}

/// Severity of one log record.
#[derive(Clone, Copy, Debug, PartialEq, Eq, Structural)]
pub enum LogLevel {
    Info,
    Warning,
    Error,
    Success,
}

/// One immutable log record of a build.
#[derive(Debug)]
pub struct BuildLog {
    /// Unix seconds at which the record was emitted.
    pub timestamp: i64,
    /// The 1-based command position it belongs to; 0 for the start banner.
    pub step: usize,
    pub level: LogLevel,
    pub message: String,
    /// The resolved command line, on `Executing:` records.
    pub command: Option<String>,
}

/// One value of the caller-supplied payload object.
///
/// The core only ever reads string values; anything else is carried opaquely
/// as its JSON text so the whole object can be re-serialized.
#[derive(Debug)]
pub enum PayloadValue {
    /// A JSON string; the field holds its character content, unescaped.
    Text(String),
    /// Any non-string JSON value; the field holds its JSON text.
    Json(String),
}

/// One `key: value` member of the payload object.
#[derive(Clone, Debug)]
pub struct PayloadEntry {
    pub key: String,
    pub value: PayloadValue,
}

/// The caller-supplied payload object, in the order its members arrived.
#[derive(Clone, Debug)]
pub struct Payload {
    pub entries: Vec<PayloadEntry>,
}

/// First-match lookup of a key in a member list.
pub open spec fn lookup(entries: Seq<PayloadEntry>, key: Seq<char>) -> Option<PayloadValue>
    decreases entries.len(),
{
    if entries.len() == 0 {
        None
    } else if entries[0].key@ == key {
        Some(entries[0].value)
    } else {
        lookup(entries.skip(1), key)
    }
}

impl Payload {
    /// What the payload associates with `key`, if anything.
    pub open spec fn spec_get(self, key: Seq<char>) -> Option<PayloadValue> {
        lookup(self.entries@, key)
    }

    /// The payload has a member named `key`.
    pub open spec fn spec_has_key(self, key: Seq<char>) -> bool {
        self.spec_get(key) is Some
    }

    /// The string content of member `key`, if it is a JSON string.
    pub open spec fn spec_get_text(self, key: Seq<char>) -> Option<Seq<char>> {
        match self.spec_get(key) {
            Some(PayloadValue::Text(s)) => Some(s@),
            _ => None,
        }
    }

    /// An empty payload object.
    pub fn new() -> (r: Payload)
        ensures
            r.entries@.len() == 0,
    {
        Payload { entries: Vec::new() }
    }

    /// Append a member; a duplicate key is shadowed by the earlier one.
    pub fn push(&mut self, key: String, value: PayloadValue)
        ensures
            final(self).entries@ == old(self).entries@.push(
                PayloadEntry { key, value },
            ),
    {
        self.entries.push(PayloadEntry { key, value });
    }

    /// First-match lookup, cloning the value out.
    pub fn get(&self, key: &str) -> (r: Option<PayloadValue>)
        ensures
            r == self.spec_get(key@),
    {
        let n = self.entries.len();
        let mut i: usize = 0;
        proof {
            assert(self.entries@.skip(0) =~= self.entries@);
        }
        while i < n
            invariant
                i <= n,
                n == self.entries@.len(),
                lookup(self.entries@, key@) == lookup(self.entries@.skip(i as int), key@),
            decreases n - i,
        {
            if crate::strutil::str_eq(self.entries[i].key.as_str(), key) {
                proof {
                    assert(self.entries@.skip(i as int)[0] == self.entries@[i as int]);
                }
                return Some(self.entries[i].value.clone());
            }
            proof {
                assert(self.entries@.skip(i as int).skip(1) =~= self.entries@.skip(i + 1));
            }
            i = i + 1;
        }
        proof {
            assert(self.entries@.skip(n as int).len() == 0);
        }
        None
    }

    /// The payload has a member named `key`.
    pub fn contains_key(&self, key: &str) -> (r: bool)
        ensures
            r == self.spec_has_key(key@),
    {
        self.get(key).is_some()
    }

    /// The string content of member `key`, if it is a JSON string.
    pub fn get_text(&self, key: &str) -> (r: Option<String>)
        ensures
            match r {
                Some(s) => self.spec_get_text(key@) == Some(s@),
                None => self.spec_get_text(key@) is None,
            },
    {
        match self.get(key) {
            Some(PayloadValue::Text(s)) => Some(s),
            _ => None,
        }
    }
}

impl Clone for BuildLog {
    /// An exact copy.
    fn clone(&self) -> (r: Self)
        ensures
            r == *self,
    {
        BuildLog {
            timestamp: self.timestamp,
            step: self.step,
            level: self.level,
            message: self.message.clone(),
            command: match &self.command {
                Some(c) => Some(c.clone()),
                None => None,
            },
        }
    }
}

/// An exact copy of a log list.
pub fn clone_logs(logs: &Vec<BuildLog>) -> (r: Vec<BuildLog>)
    ensures
        r@ == logs@,
{
    let n = logs.len();
    let mut out: Vec<BuildLog> = Vec::new();
    let mut i: usize = 0;
    while i < n
        invariant
            i <= n,
            n == logs@.len(),
            out@ == logs@.subrange(0, i as int),
        decreases n - i,
    {
        out.push(logs[i].clone());
        proof {
            assert(out@ =~= logs@.subrange(0, i + 1));
        }
        i = i + 1;
    }
    proof {
        assert(logs@.subrange(0, n as int) =~= logs@);
    }
    out
}

/// Two archived results that agree in every observable field.
pub open spec fn same_result(a: BuildResult, b: BuildResult) -> bool {
    &&& a.id == b.id
    &&& a.project_name == b.project_name
    &&& a.status == b.status
    &&& a.started_at == b.started_at
    &&& a.completed_at == b.completed_at
    &&& a.logs@ == b.logs@
    &&& a.duration_seconds == b.duration_seconds
}

impl Clone for BuildResult {
    /// An exact copy, field for field.
    fn clone(&self) -> (r: Self)
        ensures
            same_result(r, *self),
    {
        BuildResult {
            id: self.id.clone(),
            project_name: self.project_name.clone(),
            status: self.status,
            started_at: self.started_at,
            completed_at: self.completed_at,
            logs: clone_logs(&self.logs),
            duration_seconds: self.duration_seconds,
        }
    }
}

impl Clone for PayloadValue {
    /// An exact copy.
    fn clone(&self) -> (r: Self)
        ensures
            r == *self,
    {
        match self {
            PayloadValue::Text(s) => PayloadValue::Text(s.clone()),
            PayloadValue::Json(s) => PayloadValue::Json(s.clone()),
        }
    }
}

/// A request admitted to a project's queue, destroyed when its build ends.
#[derive(Clone, Debug)]
pub struct BuildRequest {
    pub id: String,
    pub project_name: String,
    /// The dedup key: `payload[uniqueBuildKey]`.
    pub unique_id: String,
    pub payload: Payload,
    /// Reserved; file upload is not part of the core.
    pub files: Vec<(String, String)>,
    pub created_at: i64,
    /// The sole credential for subscribing to this build's log stream.
    pub socket_token: String,
}

/// The live form of a dequeued request while the executor runs it.
#[derive(Clone, Debug)]
pub struct BuildProcess {
    pub id: String,
    pub project_name: String,
    pub unique_id: String,
    pub status: BuildStatus,
    pub current_step: usize,
    pub total_steps: usize,
    pub started_at: i64,
    pub socket_token: String,
    pub logs: Vec<BuildLog>,
}

/// Log steps never decrease along the record list.
pub open spec fn steps_monotone(logs: Seq<BuildLog>) -> bool {
    forall|i: int, j: int| 0 <= i <= j < logs.len() ==> #[trigger] logs[i].step <= #[trigger] logs[j].step
}

impl BuildProcess {
    /// Structural soundness of a live build: the step counter bounds every
    /// recorded step, and recorded steps never decrease.
    pub open spec fn wf(self) -> bool {
        &&& steps_monotone(self.logs@)
        &&& forall|i: int| 0 <= i < self.logs@.len() ==> #[trigger] self.logs@[i].step
            <= self.current_step
        &&& self.current_step <= self.total_steps
    }
}

/// The archival form of a finished build.
#[derive(Debug)]
pub struct BuildResult {
    pub id: String,
    pub project_name: String,
    pub status: BuildStatus,
    pub started_at: i64,
    pub completed_at: i64,
    pub logs: Vec<BuildLog>,
    pub duration_seconds: u64,
}

/// A frame on a build's broadcast channel.
#[derive(Clone, Debug)]
pub enum ServerMessage {
    Data(String),
    Shutdown,
}

/// A wake-up for a project's queue worker.
#[derive(Clone, Debug)]
pub enum BuildNextMessage {
    Project(String),
    Shutdown,
}

/// The public shape of the running build inside a status answer.
#[derive(Clone, Debug)]
pub struct BuildInfo {
    pub id: String,
    pub status: BuildStatus,
    pub current_step: usize,
    pub total_steps: usize,
    pub socket_token: String,
}

/// The answer to a status query.
#[derive(Clone, Debug)]
pub struct BuildStatusResponse {
    pub is_building: bool,
    pub queue_length: usize,
    pub current_build: Option<BuildInfo>,
}

/// The body of a submit, status, abort or cleanup request.
#[derive(Clone, Debug)]
pub struct BuildApiRequest {
    pub payload: Payload,
}

/// The answer to a submit, abort or cleanup request.
#[derive(Clone, Debug)]
pub struct BuildApiResponse {
    pub success: bool,
    pub message: String,
    pub state: String,
    /// Extra answer fields, each resolved to a string.
    pub data: Vec<(String, String)>,
}

/// The query string of a log-stream subscription.
#[derive(Clone, Debug)]
pub struct WebSocketQuery {
    pub token: String,
}

/// Everything a project owns at run time.  Created at startup, never
/// destroyed.  All mutation goes through the queue operations, which keep
/// `wf` true.
#[derive(Clone, Debug)]
pub struct ProjectState {
    /// Pending requests, oldest first.
    pub build_queue: Vec<BuildRequest>,
    /// The at-most-one build being executed right now.
    pub current_build: Option<BuildProcess>,
    /// Archived results, oldest first.
    pub build_history: Vec<BuildResult>,
    /// Whether the project's singleton queue worker is alive.
    pub worker_alive: bool,
}

impl ProjectState {
    /// The dedup keys of the queued requests, oldest first.
    pub open spec fn queue_ids(self) -> Seq<Seq<char>> {
        self.build_queue@.map_values(|r: BuildRequest| r.unique_id@)
    }

    /// Some queued request carries this dedup key.
    pub open spec fn id_queued(self, uid: Seq<char>) -> bool {
        exists|i: int|
            0 <= i < self.build_queue@.len() && #[trigger] self.build_queue@[i].unique_id@ == uid
    }

    /// The running build, if any, carries this dedup key.
    pub open spec fn id_running(self, uid: Seq<char>) -> bool {
        match self.current_build {
            Some(b) => b.unique_id@ == uid,
            None => false,
        }
    }

    /// The dedup key is present somewhere: queued or running.
    pub open spec fn id_present(self, uid: Seq<char>) -> bool {
        self.id_queued(uid) || self.id_running(uid)
    }

    /// The hard invariants of a project:
    /// no two queued requests share a dedup key, the running build shares its
    /// key with no queued request, a running build implies a live worker, and
    /// the running build is structurally sound.
    pub open spec fn wf(self) -> bool {
        &&& forall|i: int, j: int|
            0 <= i < j < self.build_queue@.len() ==> #[trigger] self.build_queue@[i].unique_id@
                != #[trigger] self.build_queue@[j].unique_id@
        &&& match self.current_build {
            Some(b) => b.wf() && !self.id_queued(b.unique_id@),
            None => true,
        }
        &&& (self.current_build is Some ==> self.worker_alive)
    }

    /// A fresh project: nothing queued, nothing running, worker asleep.
    pub fn new() -> (r: ProjectState)
        ensures
            r.build_queue@.len() == 0,
            r.current_build is None,
            r.build_history@.len() == 0,
            !r.worker_alive,
            r.wf(),
    {
        ProjectState {
            build_queue: Vec::new(),
            current_build: None,
            build_history: Vec::new(),
            worker_alive: false,
        }
    }
}


/// One project's name beside its run-time state.
#[derive(Clone, Debug)]
pub struct ProjectSlot {
    pub name: String,
    pub state: ProjectState,
}

/// Everything the server owns at run time: the static configuration, one
/// state per configured project, and the shared one-shot abort flag.
#[derive(Clone, Debug)]
pub struct AppState {
    pub config: Config,
    pub projects: Vec<ProjectSlot>,
    /// The one-shot abort signal: raised by an abort of the running build,
    /// consumed by the executor's next check.
    pub is_terminated: bool,
}

/// The slot's running build exists and carries this socket token.
pub open spec fn slot_token_matches(slot: ProjectSlot, token: Seq<char>) -> bool {
    match slot.state.current_build {
        Some(b) => b.socket_token@ == token,
        None => false,
    }
}

impl AppState {
    /// Every project's state is well formed.
    pub open spec fn wf(self) -> bool {
        forall|i: int|
            0 <= i < self.projects@.len() ==> (#[trigger] self.projects@[i]).state.wf()
    }

    /// Start-up state: one fresh project slot per configured project, in
    /// configuration order, and the abort flag down.
    pub fn new(config: Config) -> (r: AppState)
        ensures
            r.config == config,
            r.projects@.len() == config.projects@.len(),
            forall|i: int|
                0 <= i < config.projects@.len() ==> {
                    let slot = #[trigger] r.projects@[i];
                    &&& slot.name@ == config.projects@[i].name@
                    &&& slot.state.build_queue@.len() == 0
                    &&& slot.state.current_build is None
                    &&& slot.state.build_history@.len() == 0
                    &&& !slot.state.worker_alive
                },
            !r.is_terminated,
            r.wf(),
    {
        let n = config.projects.len();
        let mut projects: Vec<ProjectSlot> = Vec::new();
        let mut i: usize = 0;
        while i < n
            invariant
                i <= n,
                n == config.projects@.len(),
                projects@.len() == i,
                forall|j: int|
                    0 <= j < i ==> {
                        let slot = #[trigger] projects@[j];
                        &&& slot.name@ == config.projects@[j].name@
                        &&& slot.state.build_queue@.len() == 0
                        &&& slot.state.current_build is None
                        &&& slot.state.build_history@.len() == 0
                        &&& !slot.state.worker_alive
                    },
            decreases n - i,
        {
            projects.push(
                ProjectSlot { name: config.projects[i].name.clone(), state: ProjectState::new() },
            );
            i = i + 1;
        }
        AppState { config, projects, is_terminated: false }
    }

    /// The first slot holding this project's state.
    pub fn project_index(&self, name: &str) -> (r: Option<usize>)
        ensures
            match r {
                Some(i) => i < self.projects@.len() && self.projects@[i as int].name@ == name@
                    && forall|j: int| 0 <= j < i ==> #[trigger] self.projects@[j].name@ != name@,
                None => forall|j: int|
                    0 <= j < self.projects@.len() ==> #[trigger] self.projects@[j].name@ != name@,
            },
    {
        let n = self.projects.len();
        let mut i: usize = 0;
        while i < n
            invariant
                i <= n,
                n == self.projects@.len(),
                forall|j: int| 0 <= j < i ==> #[trigger] self.projects@[j].name@ != name@,
            decreases n - i,
        {
            if crate::strutil::str_eq(self.projects[i].name.as_str(), name) {
                return Some(i);
            }
            i = i + 1;
        }
        None
    }

    /// The first slot whose running build carries this socket token; this
    /// is how a log-stream subscription finds its build.
    pub fn find_build_by_token(&self, token: &str) -> (r: Option<usize>)
        ensures
            match r {
                Some(i) => i < self.projects@.len() && slot_token_matches(
                    self.projects@[i as int],
                    token@,
                ) && forall|j: int|
                    0 <= j < i ==> !slot_token_matches(#[trigger] self.projects@[j], token@),
                None => forall|j: int|
                    0 <= j < self.projects@.len() ==> !slot_token_matches(
                        #[trigger] self.projects@[j],
                        token@,
                    ),
            },
    {
        let n = self.projects.len();
        let mut i: usize = 0;
        while i < n
            invariant
                i <= n,
                n == self.projects@.len(),
                forall|j: int|
                    0 <= j < i ==> !slot_token_matches(#[trigger] self.projects@[j], token@),
            decreases n - i,
        {
            let matches_here = match &self.projects[i].state.current_build {
                Some(b) => crate::strutil::str_eq(b.socket_token.as_str(), token),
                None => false,
            };
            if matches_here {
                return Some(i);
            }
            i = i + 1;
        }
        None
    }
}

} // verus!
