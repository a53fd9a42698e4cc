//! Reports on accounts.
use crate::text::same_text;
use vstd::prelude::*;

verus! {

/// The risk of an account.
#[derive(Debug, Clone, Copy, PartialEq, Eq, Structural)]
pub enum AmlRiskLevel {
    Low,
    Medium,
    High,
    Unknown,
}

/// The risk that a stored name stands for; any other name is unknown.
pub open spec fn named_risk_level(name: Seq<char>) -> AmlRiskLevel {
    if name == "LOW"@ {
        AmlRiskLevel::Low
    } else if name == "MEDIUM"@ {
        AmlRiskLevel::Medium
    } else if name == "HIGH"@ {
        AmlRiskLevel::High
    } else {
        AmlRiskLevel::Unknown
    }
}

/// Reads the name of a risk.
pub fn db_risk_level(value: &str) -> (r: AmlRiskLevel)
    ensures
        r == named_risk_level(value@),
{
    if same_text(value, "LOW") {
        AmlRiskLevel::Low
    } else if same_text(value, "MEDIUM") {
        AmlRiskLevel::Medium
    } else if same_text(value, "HIGH") {
        AmlRiskLevel::High
    } else {
        AmlRiskLevel::Unknown
    }
}

/// Low, medium and high risks are stored in capitals; any other name, in any
/// other case too, is an unknown risk.
pub proof fn law_risks_are_read_by_name(name: Seq<char>)
    ensures
        named_risk_level(name) == AmlRiskLevel::Low <==> name == "LOW"@,
        named_risk_level(name) == AmlRiskLevel::Medium <==> name == "MEDIUM"@,
        named_risk_level(name) == AmlRiskLevel::High <==> name == "HIGH"@,
{
    reveal_strlit("LOW");
    reveal_strlit("MEDIUM");
    reveal_strlit("HIGH");
    assert("LOW"@.len() == 3);
    assert("MEDIUM"@.len() == 6);
    assert("HIGH"@.len() == 4);
}

} // verus!
