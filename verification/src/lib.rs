//! Verified core of a tool that provisions and tears down a single sandboxed
//! cluster running inside one container on a host container runtime.
//!
//! The library holds the decision logic: the persisted identity and build-spec
//! stores, the probe-result classifier, and the idempotent provision/remove
//! orchestrator, modelled as an explicit state machine.  The surrounding
//! binary performs the file reads/writes and spawns the runtime commands that
//! the machine asks for, and feeds the outcomes back in as events.
//!
//! One invocation runs one orchestration to completion; concurrent
//! invocations against the same working directory are not mutually excluded,
//! so single-writer usage is assumed.

pub mod buildspec;
pub mod command;
pub mod consts;
pub mod error;
pub mod identity;
pub mod laws;
pub mod ops;
pub mod orchestrator;
pub mod probe;
pub mod text;
