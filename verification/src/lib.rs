//! The decision core of a container service for coding-agent workspaces:
//! action chains, execution lifecycle rules, repository-state bookkeeping,
//! session reset and the log pipeline, stated over mathematical models and
//! proved against them.

pub mod text;
pub mod action;
pub mod model;
pub mod builder;
pub mod error;
pub mod lifecycle;
pub mod workspace;
pub mod notification;
pub mod reset;
pub mod log_msg;
pub mod log_stream;
pub mod msg_store;
pub mod registry;
pub mod routes;
pub mod naming;
pub mod backfill;
pub mod migration;
