//! Bootstrap-and-execution pipeline of a sandboxed script runner: permission
//! gateway, service factory, dependency gate, worker lifecycle, invocation
//! supervisor and the error-to-exit-code classifier.

pub mod permission;
pub mod exit;
pub mod worker;
pub mod factory;
pub mod pipeline;
