//! Authorization core for autonomous agents: the checks that decide whether an
//! agent's intent may run under a policy, and the hash commitment that binds an
//! execution receipt to its fields.

pub mod agent;
pub mod bytes;
pub mod digest;
pub mod errors;
pub mod execution;
pub mod intent;
pub mod policy;
pub mod pubkey;
pub mod validation;
