//! Static configuration, loaded once at startup.
//!
//! Reading and parsing the configuration file is an adapter's job; the core
//! receives these plain values and never changes them.

use vstd::prelude::*;
use crate::strutil;

verus! {

/// TLS settings of the listener.
#[derive(Clone, Debug)]
pub struct SslConfig {
    pub enable_ssl: bool,
    pub certificate_path: String,
    pub certificate_key_path: String,
}

/// An authorization policy: by bearer token, by caller address, or both.
#[derive(Clone, Debug)]
pub struct AuthConfig {
    /// `"token"`, `"address"` or `"both"`; anything else authorizes nobody.
    pub auth_type: String,
    /// `"ip"` or `"hostname"`.
    pub address_type: String,
    pub allowed_addresses: Vec<String>,
    pub allowed_tokens: Vec<String>,
}

/// One HTTP operation a project exposes.
#[derive(Clone, Debug)]
pub struct EndpointConfig {
    pub endpoint: String,
    pub method: String,
    /// Payload fields the caller must supply.
    pub payload: Vec<String>,
    /// Extra fields echoed back in the answer, after resolution.
    pub return_fields: Vec<ReturnField>,
    pub file: Vec<FileConfig>,
}

/// One field echoed back in an answer: a name and a template for its value.
#[derive(Clone, Debug)]
pub struct ReturnField {
    pub name: Option<String>,
    pub value: String,
}

/// A file a build may produce; reserved.
#[derive(Clone, Debug)]
pub struct FileConfig {
    pub name: String,
    pub path: String,
    /// `"del"` or `"keep"`.
    pub on_err_suc: String,
}

/// The endpoint surface of one project.
#[derive(Clone, Debug)]
pub struct ApiConfig {
    pub build: EndpointConfig,
    pub is_building: EndpointConfig,
    pub abort: EndpointConfig,
    pub cleanup: EndpointConfig,
    pub socket: EndpointConfig,
}

/// One shell command template of a pipeline.
#[derive(Clone, Debug)]
pub struct CommandConfig {
    pub command: String,
    pub title: String,
    /// `"abort"` stops the pipeline on failure; anything else continues.
    pub on_error: String,
    pub send_to_sock: bool,
}

/// The pipeline and webhooks of one project.
#[derive(Clone, Debug)]
pub struct BuildConfig {
    pub project_path: String,
    /// Webhook URL template fired on success; empty fires nothing.
    pub on_success: String,
    /// Webhook URL template fired on failure or abort; empty fires nothing.
    pub on_failure: String,
    pub on_success_payload: Vec<String>,
    pub on_failure_payload: Vec<String>,
    pub commands: Vec<CommandConfig>,
    pub run_on_success: Vec<CommandConfig>,
    pub run_on_failure: Vec<CommandConfig>,
}

/// Everything one project is configured with.
#[derive(Clone, Debug)]
pub struct ProjectConfig {
    /// When false a second request is rejected outright; when true it is
    /// queued, up to `max_pending_build`.
    pub allow_multi_build: bool,
    pub max_pending_build: u32,
    pub base_endpoint_path: String,
    /// The payload field whose value deduplicates builds.
    pub unique_build_key: String,
    pub api: ApiConfig,
    pub auth: Option<AuthConfig>,
    pub build: BuildConfig,
}

/// One named project of the configuration.
#[derive(Clone, Debug)]
pub struct ProjectEntry {
    pub name: String,
    pub project: ProjectConfig,
}

/// The whole server configuration.
#[derive(Clone, Debug)]
pub struct Config {
    pub name: String,
    pub port: u16,
    pub base_path: String,
    pub log_path: String,
    pub ssl: SslConfig,
    pub auth: AuthConfig,
    pub projects: Vec<ProjectEntry>,
}

impl Config {
    /// The index of the first project with this name.
    pub open spec fn spec_project_index(self, name: Seq<char>) -> Option<int> {
        if exists|i: int| 0 <= i < self.projects@.len() && #[trigger] self.projects@[i].name@
            == name {
            Some(
                choose|i: int|
                    0 <= i < self.projects@.len() && #[trigger] self.projects@[i].name@ == name
                        && forall|j: int|
                        0 <= j < i ==> #[trigger] self.projects@[j].name@ != name,
            )
        } else {
            None
        }
    }

    /// Some project carries this name.
    pub open spec fn spec_has_project(self, name: Seq<char>) -> bool {
        exists|i: int| 0 <= i < self.projects@.len() && #[trigger] self.projects@[i].name@ == name
    }

    /// The first project with this name.
    pub fn project_named<'a>(&'a self, name: &str) -> (r: Option<&'a ProjectConfig>)
        ensures
            r is Some <==> self.spec_has_project(name@),
            match r {
                Some(p) => {
                    let i = self.spec_project_index(name@)->Some_0;
                    self.spec_project_index(name@) is Some && 0 <= i < self.projects@.len()
                        && self.projects@[i].project == *p
                },
                None => true,
            },
    {
        let n = self.projects.len();
        let mut i: usize = 0;
        while i < n
            invariant
                i <= n,
                n == self.projects@.len(),
                forall|j: int| 0 <= j < i ==> #[trigger] self.projects@[j].name@ != name@,
            decreases n - i,
        {
            if strutil::str_eq(self.projects[i].name.as_str(), name) {
                proof {
                    let wi = i as int;
                    assert(0 <= wi < self.projects@.len() && self.projects@[wi].name@ == name@
                        && forall|j: int| 0 <= j < wi ==> #[trigger] self.projects@[j].name@
                        != name@);
                    let c = self.spec_project_index(name@)->Some_0;
                    assert(0 <= c < self.projects@.len() && self.projects@[c].name@ == name@
                        && forall|j: int| 0 <= j < c ==> #[trigger] self.projects@[j].name@
                        != name@);
                    if c != wi {
                        assert(self.projects@[if c < wi {
                            c
                        } else {
                            wi
                        }].name@ != name@);
                    }
                }
                return Some(&self.projects[i].project);
            }
            i = i + 1;
        }
        None
    }

    /// The position of the first project whose base endpoint path is a
    /// prefix of the request path.
    pub open spec fn spec_route_index(self, path: Seq<char>) -> Option<int> {
        if exists|i: int|
            0 <= i < self.projects@.len() && strutil::match_at(
                path,
                (#[trigger] self.projects@[i]).project.base_endpoint_path@,
                0,
            ) {
            Some(
                choose|i: int|
                    0 <= i < self.projects@.len() && strutil::match_at(
                        path,
                        (#[trigger] self.projects@[i]).project.base_endpoint_path@,
                        0,
                    ) && forall|j: int|
                        0 <= j < i ==> !strutil::match_at(
                            path,
                            (#[trigger] self.projects@[j]).project.base_endpoint_path@,
                            0,
                        ),
            )
        } else {
            None
        }
    }

    /// The name of the first project whose base endpoint path is a prefix of
    /// the request path; this is how a request is routed to its project.
    pub fn extract_project_name(&self, path: &str) -> (r: Option<String>)
        ensures
            r is Some <==> self.spec_route_index(path@) is Some,
            r matches Some(name) ==> {
                let i = self.spec_route_index(path@)->Some_0;
                0 <= i < self.projects@.len() && name@ == self.projects@[i].name@
            },
    {
        let n = self.projects.len();
        let mut i: usize = 0;
        while i < n
            invariant
                i <= n,
                n == self.projects@.len(),
                forall|j: int|
                    0 <= j < i ==> !strutil::match_at(
                        path@,
                        #[trigger] self.projects@[j].project.base_endpoint_path@,
                        0,
                    ),
            decreases n - i,
        {
            if strutil::str_starts_with(path, self.projects[i].project.base_endpoint_path.as_str())
            {
                let name = self.projects[i].name.clone();
                proof {
                    let wi = i as int;
                    assert(0 <= wi < self.projects@.len() && strutil::match_at(
                        path@,
                        self.projects@[wi].project.base_endpoint_path@,
                        0,
                    ) && forall|j: int|
                        0 <= j < wi ==> !strutil::match_at(
                            path@,
                            (#[trigger] self.projects@[j]).project.base_endpoint_path@,
                            0,
                        ));
                    let c = self.spec_route_index(path@)->Some_0;
                    assert(0 <= c < self.projects@.len() && strutil::match_at(
                        path@,
                        self.projects@[c].project.base_endpoint_path@,
                        0,
                    ) && forall|j: int|
                        0 <= j < c ==> !strutil::match_at(
                            path@,
                            (#[trigger] self.projects@[j]).project.base_endpoint_path@,
                            0,
                        ));
                    if c != wi {
                        assert(!strutil::match_at(
                            path@,
                            self.projects@[if c < wi {
                                c
                            } else {
                                wi
                            }].project.base_endpoint_path@,
                            0,
                        ));
                    }
                }
                return Some(name);
            }
            i = i + 1;
        }
        None
    }
}

} // verus!
