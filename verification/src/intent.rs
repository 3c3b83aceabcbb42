//! A signed, time-bounded request by an agent to invoke a method on a target
//! program.

use crate::pubkey::Pubkey;
use vstd::prelude::*;

verus! {

/// The kind of action an intent asks for.
#[derive(Clone, Copy, Debug, PartialEq, Eq)]
pub enum ActionType {
    Swap,
    Transfer,
    Stake,
    Vote,
    Generic,
}

/// A request artifact. `params_json` and `constraints_json` are opaque
/// payloads, `expiration_unix_ms` is in epoch milliseconds, and `signature`
/// holds the raw signature bytes, whose correctness is checked elsewhere.
#[derive(Clone, Debug, PartialEq, Eq)]
pub struct Intent {
    pub agent_id: Pubkey,
    pub action_type: ActionType,
    pub target_program: Pubkey,
    pub method: String,
    pub params_json: String,
    pub constraints_json: String,
    pub expiration_unix_ms: i64,
    pub nonce: String,
    pub signature: Vec<u8>,
}

} // verus!
