use autonex_sdk_rust::agent::{Agent, AgentStatus};
use autonex_sdk_rust::bytes::{bytes_equal, i64_to_le_bytes, str_equal};
use autonex_sdk_rust::intent::ActionType;
use autonex_sdk_rust::policy::{FinancialRules, Policy, ProtocolRules, RiskRules, TimeRules};
use autonex_sdk_rust::pubkey::{Pubkey, PUBKEY_BYTES};

#[test]
fn default_policy_has_no_limits_and_empty_lists() {
    let policy = Policy::default();
    assert_eq!(policy.financial_rules.max_tx_amount, None);
    assert_eq!(policy.financial_rules.daily_limit, None);
    assert_eq!(policy.financial_rules.max_slippage_bps, None);
    assert_eq!(policy.time_rules.start_hour_utc, None);
    assert_eq!(policy.time_rules.end_hour_utc, None);
    assert!(policy.protocol_rules.allow_protocols.is_empty());
    assert!(policy.protocol_rules.allow_methods.is_empty());
    assert_eq!(policy.risk_rules.max_risk_score, None);
}

#[test]
fn default_rule_groups_match_the_default_policy() {
    let policy = Policy::default();
    assert_eq!(policy.financial_rules, FinancialRules::default());
    assert_eq!(policy.time_rules, TimeRules::default());
    assert_eq!(policy.protocol_rules, ProtocolRules::default());
    assert_eq!(policy.risk_rules, RiskRules::default());
}

#[test]
fn protocol_rules_answer_membership() {
    let a = Pubkey([1u8; 32]);
    let b = Pubkey([2u8; 32]);
    let rules = ProtocolRules {
        allow_protocols: vec![a],
        allow_methods: vec!["swap".to_string(), "vote".to_string()],
    };
    assert!(rules.allows_protocol(&a));
    assert!(!rules.allows_protocol(&b));
    assert!(rules.lists_method("swap"));
    assert!(rules.lists_method("vote"));
    assert!(!rules.lists_method("stake"));
    assert!(!rules.lists_method(""));

    let empty = ProtocolRules::default();
    assert!(!empty.allows_protocol(&a));
    assert!(!empty.lists_method("swap"));
}

#[test]
fn pubkey_round_trips_its_bytes() {
    let mut bytes = [0u8; 32];
    for (i, byte) in bytes.iter_mut().enumerate() {
        *byte = (i * 7 + 3) as u8;
    }
    let key = Pubkey::new_from_array(bytes);
    assert_eq!(key.to_bytes(), bytes);
    assert_eq!(key, Pubkey(bytes));
    assert_eq!(PUBKEY_BYTES, 32);
    assert_eq!(key.to_bytes().len(), PUBKEY_BYTES);
}

#[test]
fn pubkey_agrees_with_the_solana_identifier() {
    let theirs = solana_program::pubkey::Pubkey::new_unique();
    let other = solana_program::pubkey::Pubkey::new_unique();
    let ours = Pubkey::new_from_array(theirs.to_bytes());
    assert_eq!(ours.to_bytes(), theirs.to_bytes());
    assert_eq!(solana_program::pubkey::Pubkey::new_from_array(ours.to_bytes()), theirs);
    assert_eq!(ours.same_as(&Pubkey::new_from_array(other.to_bytes())), theirs == other);
    assert_eq!(ours.same_as(&Pubkey::new_from_array(theirs.to_bytes())), theirs == theirs);
}

#[test]
fn pubkey_same_as_is_byte_equality() {
    let a = Pubkey([5u8; 32]);
    assert!(a.same_as(&Pubkey([5u8; 32])));
    for position in 0..32 {
        let mut bytes = [5u8; 32];
        bytes[position] = 6;
        assert!(!a.same_as(&Pubkey(bytes)));
        assert!(!Pubkey(bytes).same_as(&a));
    }
}

#[test]
fn bytes_equal_needs_equal_length_and_content() {
    assert!(bytes_equal(&[], &[]));
    assert!(bytes_equal(&[1, 2, 3], &[1, 2, 3]));
    assert!(!bytes_equal(&[1, 2, 3], &[1, 2]));
    assert!(!bytes_equal(&[1, 2], &[1, 2, 3]));
    assert!(!bytes_equal(&[1, 2, 3], &[1, 2, 4]));
    assert!(!bytes_equal(&[0, 2, 3], &[1, 2, 3]));
    assert!(!bytes_equal(&[], &[0]));
}

#[test]
fn str_equal_is_exact() {
    assert!(str_equal("", ""));
    assert!(str_equal("swap", "swap"));
    assert!(str_equal("é✓", "é✓"));
    assert!(!str_equal("swap", "Swap"));
    assert!(!str_equal("swap", "swap "));
    assert!(!str_equal("é", "e\u{301}"));
    assert!(!str_equal("", " "));
}

#[test]
fn little_endian_bytes_match_the_machine_encoding() {
    let values = [
        0i64,
        1,
        -1,
        -2,
        255,
        256,
        -256,
        0x0102_0304_0506_0708,
        -0x0102_0304_0506_0708,
        1_700_000_000_000,
        i64::MAX,
        i64::MIN,
        i64::MIN + 1,
        i64::MAX - 1,
    ];
    for value in values {
        assert_eq!(i64_to_le_bytes(value), value.to_le_bytes());
    }
    assert_eq!(i64_to_le_bytes(0x0102_0304_0506_0708), [8, 7, 6, 5, 4, 3, 2, 1]);
    assert_eq!(i64_to_le_bytes(-1), [255u8; 8]);
    assert_eq!(i64_to_le_bytes(i64::MIN), [0, 0, 0, 0, 0, 0, 0, 128]);
}

#[test]
fn agent_record_holds_its_fields() {
    let agent = Agent {
        agent_id: Pubkey([3u8; 32]),
        role: "trader".to_string(),
        permissions: vec!["swap".to_string(), "stake".to_string()],
        status: AgentStatus::Paused,
    };
    let copy = agent.clone();
    assert_eq!(agent, copy);
    assert_eq!(copy.permissions, vec!["swap".to_string(), "stake".to_string()]);
    assert_ne!(AgentStatus::Active, AgentStatus::Revoked);
    assert_ne!(ActionType::Swap, ActionType::Transfer);
    assert_eq!(ActionType::Vote.clone(), ActionType::Vote);
}
