//! The three checks of the enforcement pipeline. Each is a pure decision that
//! either passes or rejects with exactly one [`AutonexError`]; a caller runs
//! them in the order given here and stops at the first rejection.

use crate::errors::AutonexError;
use crate::intent::Intent;
use crate::policy::Policy;
use crate::pubkey::Pubkey;
use vstd::prelude::*;

verus! {

/// The decision on an intent at the instant `now_unix_ms`: a missing signature
/// is reported first, then an expiration at or before `now_unix_ms`.
pub open spec fn intent_decision(intent: &Intent, now_unix_ms: i64) -> Result<(), AutonexError> {
    if intent.signature@.len() == 0 {
        Err(AutonexError::IntentUnsigned)
    } else if intent.expiration_unix_ms <= now_unix_ms {
        Err(AutonexError::IntentExpired)
    } else {
        Ok(())
    }
}

/// The decision on whether a usable policy is present: there must be one, and
/// it must authorize at least one protocol.
pub open spec fn policy_decision(policy: Option<&Policy>) -> Result<&Policy, AutonexError> {
    match policy {
        None => Err(AutonexError::PolicyMissing),
        Some(p) => if p.protocol_rules.allow_protocols@.len() == 0 {
            Err(AutonexError::TargetProgramNotAllowed)
        } else {
            Ok(p)
        },
    }
}

/// The decision on a call of `method` on `target_program` under `policy`: the
/// target must be an allowed protocol, and where the policy lists any methods,
/// `method` must be one of them.
pub open spec fn allowlist_decision(
    policy: &Policy,
    target_program: &Pubkey,
    method: Seq<char>,
) -> Result<(), AutonexError> {
    if !policy.protocol_rules.protocols().contains(target_program@) {
        Err(AutonexError::TargetProgramNotAllowed)
    } else if policy.protocol_rules.restricts_methods() && !policy.protocol_rules.methods().contains(
        method,
    ) {
        Err(AutonexError::MethodNotAllowed)
    } else {
        Ok(())
    }
}

/// Checks that an intent is signed and not expired at `now_unix_ms`.
///
/// Only the presence of signature bytes is checked here, not their validity.
/// Expiration is exclusive: an intent that expires exactly at `now_unix_ms` is
/// expired.
pub fn validate_intent(intent: &Intent, now_unix_ms: i64) -> (decision: Result<(), AutonexError>)
    ensures
        decision == intent_decision(intent, now_unix_ms),
{
    if intent.signature.is_empty() {
        return Err(AutonexError::IntentUnsigned);
    }
    if intent.expiration_unix_ms <= now_unix_ms {
        return Err(AutonexError::IntentExpired);
    }
    Ok(())
}

/// Checks that a policy is supplied and authorizes at least one protocol, and
/// hands that policy back for the checks that follow.
pub fn validate_policy(policy: Option<&Policy>) -> (decision: Result<&Policy, AutonexError>)
    ensures
        decision == policy_decision(policy),
{
    match policy {
        None => Err(AutonexError::PolicyMissing),
        Some(p) => {
            if p.protocol_rules.allow_protocols.is_empty() {
                Err(AutonexError::TargetProgramNotAllowed)
            } else {
                Ok(p)
            }
        },
    }
}

/// Enforces the protocol and method allowlists of `policy` on one call.
pub fn enforce_protocol_allowlist(policy: &Policy, target_program: &Pubkey, method: &str) -> (decision:
    Result<(), AutonexError>)
    ensures
        decision == allowlist_decision(policy, target_program, method@),
{
    if !policy.protocol_rules.allows_protocol(target_program) {
        return Err(AutonexError::TargetProgramNotAllowed);
    }
    if !policy.protocol_rules.allow_methods.is_empty() && !policy.protocol_rules.lists_method(
        method,
    ) {
        return Err(AutonexError::MethodNotAllowed);
    }
    Ok(())
}

/// An intent without signature bytes is rejected as unsigned, whatever its
/// expiration and whatever the current instant.
pub proof fn lemma_unsigned_intent_rejected(intent: &Intent, now_unix_ms: i64)
    requires
        intent.signature@.len() == 0,
    ensures
        intent_decision(intent, now_unix_ms) == Err::<(), AutonexError>(
            AutonexError::IntentUnsigned,
        ),
{
}

/// A signed intent is decided by its expiration alone: rejected as expired
/// when it expires at or before the current instant, accepted when it expires
/// after it.
pub proof fn lemma_signed_intent_decided_by_expiration(intent: &Intent, now_unix_ms: i64)
    requires
        intent.signature@.len() > 0,
    ensures
        intent.expiration_unix_ms <= now_unix_ms ==> intent_decision(intent, now_unix_ms) == Err::<
            (),
            AutonexError,
        >(AutonexError::IntentExpired),
        intent.expiration_unix_ms > now_unix_ms ==> intent_decision(intent, now_unix_ms) == Ok::<
            (),
            AutonexError,
        >(()),
{
}

/// Without a policy the decision is always that the policy is missing.
pub proof fn lemma_missing_policy_rejected()
    ensures
        policy_decision(None) == Err::<&Policy, AutonexError>(AutonexError::PolicyMissing),
{
}

/// A supplied policy is rejected, as authorizing no target program, exactly
/// when its list of allowed protocols is empty; otherwise that same policy is
/// handed back.
pub proof fn lemma_policy_rejected_iff_no_protocols(policy: &Policy)
    ensures
        policy_decision(Some(policy)) == Err::<&Policy, AutonexError>(
            AutonexError::TargetProgramNotAllowed,
        ) <==> policy.protocol_rules.allow_protocols@.len() == 0,
        policy.protocol_rules.allow_protocols@.len() > 0 ==> policy_decision(Some(policy)) == Ok::<
            &Policy,
            AutonexError,
        >(policy),
{
}

/// Under a policy that allows the single protocol `allowed` and lists the
/// single method `listed`: any other target is rejected as not allowed,
/// whatever the method; the allowed target with any other method is rejected
/// for the method; the allowed target with the listed method passes.
pub proof fn lemma_single_entry_allowlists(
    policy: &Policy,
    allowed: Pubkey,
    listed: String,
    target_program: &Pubkey,
    method: Seq<char>,
)
    requires
        policy.protocol_rules.allow_protocols@ == seq![allowed],
        policy.protocol_rules.allow_methods@ == seq![listed],
    ensures
        target_program@ != allowed@ ==> allowlist_decision(policy, target_program, method) == Err::<
            (),
            AutonexError,
        >(AutonexError::TargetProgramNotAllowed),
        target_program@ == allowed@ && method != listed@ ==> allowlist_decision(
            policy,
            target_program,
            method,
        ) == Err::<(), AutonexError>(AutonexError::MethodNotAllowed),
        target_program@ == allowed@ && method == listed@ ==> allowlist_decision(
            policy,
            target_program,
            method,
        ) == Ok::<(), AutonexError>(()),
{
    assert(policy.protocol_rules.allow_protocols@[0] == allowed);
    assert(policy.protocol_rules.allow_methods@[0] == listed);
}

/// A policy with an empty method list does not restrict the method: every
/// call on an allowed target passes, whatever the method.
pub proof fn lemma_empty_method_list_is_unrestricted(
    policy: &Policy,
    target_program: &Pubkey,
    method: Seq<char>,
)
    requires
        policy.protocol_rules.allow_methods@.len() == 0,
        policy.protocol_rules.protocols().contains(target_program@),
    ensures
        allowlist_decision(policy, target_program, method) == Ok::<(), AutonexError>(()),
{
}

/// The case of one allowed protocol: with `allow_protocols` holding `allowed`
/// alone and `allow_methods` empty, every method on `allowed` passes.
pub proof fn lemma_single_protocol_any_method(policy: &Policy, allowed: Pubkey, method: Seq<char>)
    requires
        policy.protocol_rules.allow_protocols@ == seq![allowed],
        policy.protocol_rules.allow_methods@.len() == 0,
    ensures
        allowlist_decision(policy, &allowed, method) == Ok::<(), AutonexError>(()),
{
    assert(policy.protocol_rules.allow_protocols@[0] == allowed);
}

/// The allowlists count as sets: two policies whose lists hold the same
/// protocols and the same methods, in whatever order and however often
/// repeated, decide every call alike.
pub proof fn lemma_allowlists_are_sets(
    a: &Policy,
    b: &Policy,
    target_program: &Pubkey,
    method: Seq<char>,
)
    requires
        a.protocol_rules.protocols() == b.protocol_rules.protocols(),
        a.protocol_rules.methods() == b.protocol_rules.methods(),
    ensures
        allowlist_decision(a, target_program, method) == allowlist_decision(
            b,
            target_program,
            method,
        ),
{
    if a.protocol_rules.restricts_methods() {
        assert(a.protocol_rules.methods().contains(a.protocol_rules.allow_methods@[0]@));
    }
    if b.protocol_rules.restricts_methods() {
        assert(b.protocol_rules.methods().contains(b.protocol_rules.allow_methods@[0]@));
    }
}

} // verus!
