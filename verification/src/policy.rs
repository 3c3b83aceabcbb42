//! The authorization configuration bound to an agent: four independent rule
//! groups, of which the protocol rules carry the allowlists.

use crate::bytes::str_equal;
use crate::pubkey::Pubkey;
use vstd::prelude::*;

verus! {

/// Limits on amounts moved by an agent. An absent limit does not restrict.
#[derive(Clone, Debug, PartialEq, Eq)]
pub struct FinancialRules {
    pub max_tx_amount: Option<u64>,
    pub daily_limit: Option<u64>,
    pub max_slippage_bps: Option<u16>,
}

/// The allowed execution window, as hours of the day in UTC (0 to 23).
#[derive(Clone, Debug, PartialEq, Eq)]
pub struct TimeRules {
    pub start_hour_utc: Option<u8>,
    pub end_hour_utc: Option<u8>,
}

/// The allowlists of target programs and of methods.
///
/// Both lists stand for sets: order and repetition carry no meaning. An empty
/// `allow_protocols` authorizes no protocol at all, while an empty
/// `allow_methods` leaves the method unrestricted.
#[derive(Clone, Debug, PartialEq, Eq)]
pub struct ProtocolRules {
    pub allow_protocols: Vec<Pubkey>,
    pub allow_methods: Vec<String>,
}

/// The highest risk score an agent may accept.
#[derive(Clone, Debug, PartialEq, Eq)]
pub struct RiskRules {
    pub max_risk_score: Option<u16>,
}

/// The rules that govern what an agent's intents may do.
#[derive(Clone, Debug, PartialEq, Eq)]
pub struct Policy {
    pub financial_rules: FinancialRules,
    pub time_rules: TimeRules,
    pub protocol_rules: ProtocolRules,
    pub risk_rules: RiskRules,
}

impl Default for FinancialRules {
    fn default() -> (rules: Self)
        ensures
            rules.max_tx_amount is None,
            rules.daily_limit is None,
            rules.max_slippage_bps is None,
    {
        FinancialRules { max_tx_amount: None, daily_limit: None, max_slippage_bps: None }
    }
}

impl TimeRules {
    /// Whether every hour that is present is an hour of the day, 0 to 23.
    pub open spec fn hours_in_range(&self) -> bool {
        &&& self.start_hour_utc matches Some(hour) ==> hour <= 23
        &&& self.end_hour_utc matches Some(hour) ==> hour <= 23
    }
}

impl Default for TimeRules {
    fn default() -> (rules: Self)
        ensures
            rules.start_hour_utc is None,
            rules.end_hour_utc is None,
            rules.hours_in_range(),
    {
        TimeRules { start_hour_utc: None, end_hour_utc: None }
    }
}

impl Default for ProtocolRules {
    fn default() -> (rules: Self)
        ensures
            rules.allow_protocols@.len() == 0,
            rules.allow_methods@.len() == 0,
    {
        ProtocolRules { allow_protocols: Vec::new(), allow_methods: Vec::new() }
    }
}

impl Default for RiskRules {
    fn default() -> (rules: Self)
        ensures
            rules.max_risk_score is None,
    {
        RiskRules { max_risk_score: None }
    }
}

impl Default for Policy {
    fn default() -> (policy: Self)
        ensures
            policy.financial_rules.max_tx_amount is None,
            policy.financial_rules.daily_limit is None,
            policy.financial_rules.max_slippage_bps is None,
            policy.time_rules.start_hour_utc is None,
            policy.time_rules.end_hour_utc is None,
            policy.protocol_rules.allow_protocols@.len() == 0,
            policy.protocol_rules.allow_methods@.len() == 0,
            policy.risk_rules.max_risk_score is None,
    {
        Policy {
            financial_rules: FinancialRules::default(),
            time_rules: TimeRules::default(),
            protocol_rules: ProtocolRules::default(),
            risk_rules: RiskRules::default(),
        }
    }
}

impl ProtocolRules {
    /// The allowed target programs, as a set of 32-byte identifiers.
    pub open spec fn protocols(&self) -> Set<Seq<u8>> {
        Set::new(
            |id: Seq<u8>|
                exists|i: int|
                    0 <= i < self.allow_protocols@.len() && (#[trigger] self.allow_protocols@[i])@
                        == id,
        )
    }

    /// The listed methods, as a set of strings.
    pub open spec fn methods(&self) -> Set<Seq<char>> {
        Set::new(
            |name: Seq<char>|
                exists|i: int|
                    0 <= i < self.allow_methods@.len() && (#[trigger] self.allow_methods@[i])@
                        == name,
        )
    }

    /// Whether the rules restrict the method at all.
    pub open spec fn restricts_methods(&self) -> bool {
        self.allow_methods@.len() > 0
    }

    /// Whether `target` is one of the allowed protocols, by exact equality of
    /// the 32 bytes.
    pub fn allows_protocol(&self, target: &Pubkey) -> (allowed: bool)
        ensures
            allowed == self.protocols().contains(target@),
    {
        let mut i: usize = 0;
        while i < self.allow_protocols.len()
            invariant
                i <= self.allow_protocols@.len(),
                forall|k: int| 0 <= k < i ==> (#[trigger] self.allow_protocols@[k])@ != target@,
            decreases self.allow_protocols@.len() - i,
        {
            if self.allow_protocols[i].same_as(target) {
                return true;
            }
            i += 1;
        }
        false
    }

    /// Whether `method` is one of the listed methods, by exact, case-sensitive
    /// equality of the strings.
    pub fn lists_method(&self, method: &str) -> (listed: bool)
        ensures
            listed == self.methods().contains(method@),
    {
        let mut i: usize = 0;
        while i < self.allow_methods.len()
            invariant
                i <= self.allow_methods@.len(),
                forall|k: int| 0 <= k < i ==> (#[trigger] self.allow_methods@[k])@ != method@,
            decreases self.allow_methods@.len() - i,
        {
            if str_equal(self.allow_methods[i].as_str(), method) {
                return true;
            }
            i += 1;
        }
        false
    }
}

} // verus!
