//! An endpoint-integrity library: a common model of host telemetry, a policy
//! engine that turns a telemetry snapshot into findings, the sealed envelope
//! that carries a report of findings, and the decisions of a monitoring
//! session.
pub mod text;
pub mod telemetry;
pub mod policy;
pub mod envelope;
pub mod session;
pub mod platform;
pub mod hosts;
