//! The identity record of an agent.

use crate::pubkey::Pubkey;
use vstd::prelude::*;

verus! {

/// Whether an agent may currently act.
#[derive(Clone, Copy, Debug, PartialEq, Eq)]
pub enum AgentStatus {
    Active,
    Paused,
    Revoked,
}

/// An agent as an external registry records it. Intents and receipts refer to
/// an agent by `agent_id` only.
#[derive(Clone, Debug, PartialEq, Eq)]
pub struct Agent {
    pub agent_id: Pubkey,
    pub role: String,
    pub permissions: Vec<String>,
    pub status: AgentStatus,
}

} // verus!
