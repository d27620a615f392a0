//! Problem-package tooling: the lifecycle of long-running operations, the
//! log that exposes them to pollers, the client-side polling stream, and the
//! bootstrap of the local endpoint, together with the wire vocabulary.

pub mod api;
pub mod boundary;
pub mod cli;
pub mod client;
pub mod engine;
pub mod operation;
pub mod valuer;
