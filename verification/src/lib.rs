//! Approval workflow engine: a sequential, multi-step approval chain.
//!
//! The heart of the crate is [`flow::FlowProcess`], an ordered list of
//! approval steps together with a pointer to the step that is currently
//! awaiting a decision.  [`flow::FlowProcess::handle_action`] is the only
//! operation that moves a chain forward; its contract pins down exactly
//! which actor may act, which errors are reported, and how the chain
//! changes on approval or rejection.  [`request`] wraps the engine with
//! the request-level bookkeeping (overall status, audit-log records,
//! seeding a request from a template), [`laws`] states and proves the
//! engine's general laws, and [`auth`] holds the identity
//! helpers (password hashing, token claims) the surrounding service uses.

pub mod auth;
pub mod flow;
pub mod laws;
pub mod request;
