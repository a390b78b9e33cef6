//! A verified core for a multi-tenant build orchestration server.
//!
//! The library holds the concurrency and lifecycle engine that sits beneath
//! the HTTP surface: the per-project serialized build queue with
//! deduplication and bounded pending slots, the build executor's decision
//! machine, the log fan-out bus with history replay, and the variable and
//! payload resolution rules.  I/O — the HTTP routes, the shell processes,
//! the sockets, the disk — lives outside and talks to this core in plain
//! values.

pub mod auth;
pub mod config;
pub mod executor;
pub mod ingress;
pub mod jsonfmt;
pub mod logbus;
pub mod models;
pub mod queue;
pub mod resolve;
pub mod strutil;
pub mod sys;
