//! The closed set of reasons for which a check rejects.

use vstd::prelude::*;

verus! {

/// Why an authorization check rejected. Each check reports exactly one kind.
#[derive(Clone, Copy, Debug, PartialEq, Eq)]
pub enum AutonexError {
    /// The intent carries no signature bytes.
    IntentUnsigned,
    /// The intent's expiration is at or before the current instant.
    IntentExpired,
    /// No policy was supplied.
    PolicyMissing,
    /// The policy authorizes no protocol, or not the requested one.
    TargetProgramNotAllowed,
    /// The policy restricts methods and the requested one is not listed.
    MethodNotAllowed,
}

impl AutonexError {
    /// The human-readable message of each kind.
    pub open spec fn message_text(self) -> Seq<char> {
        match self {
            AutonexError::IntentUnsigned => "intent is unsigned"@,
            AutonexError::IntentExpired => "intent is expired"@,
            AutonexError::PolicyMissing => "policy missing"@,
            AutonexError::TargetProgramNotAllowed => "target program not allowlisted"@,
            AutonexError::MethodNotAllowed => "method not allowlisted"@,
        }
    }

    /// The human-readable message for this kind of rejection.
    pub fn message(&self) -> (text: &'static str)
        ensures
            text@ == self.message_text(),
    {
        match self {
            AutonexError::IntentUnsigned => "intent is unsigned",
            AutonexError::IntentExpired => "intent is expired",
            AutonexError::PolicyMissing => "policy missing",
            AutonexError::TargetProgramNotAllowed => "target program not allowlisted",
            AutonexError::MethodNotAllowed => "method not allowlisted",
        }
    }
}

} // verus!
