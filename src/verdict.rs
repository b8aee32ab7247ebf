//! Folding the gathered signals into a severity and a list of tags.
use vstd::prelude::*;
use crate::walk::TraversalState;

verus! {

/// How worrying a file looks.
#[derive(Clone, Copy, Debug, PartialEq, Eq, Structural)]
pub enum Severity {
    Low,
    Medium,
    High,
}

impl Severity {
    /// The display colour of the severity, as red, green and blue.
    pub fn rgb(&self) -> (r: (u8, u8, u8))
        ensures
            *self == Severity::Low ==> r == (0u8, 255u8, 0u8),
            *self == Severity::Medium ==> r == (255u8, 165u8, 0u8),
            *self == Severity::High ==> r == (255u8, 0u8, 0u8),
    {
        match self {
            Severity::Low => (0, 255, 0),
            Severity::Medium => (255, 165, 0),
            Severity::High => (255, 0, 0),
        }
    }
}

/// A behaviour that the analysis found.
#[derive(Clone, Copy, Debug, PartialEq, Eq, Structural)]
pub enum RiskTag {
    ApiActive,
    ComplexLogic,
    DomManipulation,
}

/// The label under which a tag is shown.
pub open spec fn tag_label(t: RiskTag) -> Seq<char> {
    match t {
        RiskTag::ApiActive => "API-ACTIVE"@,
        RiskTag::ComplexLogic => "COMPLEX-LOGIC"@,
        RiskTag::DomManipulation => "DOM-MANIPULATION"@,
    }
}

impl RiskTag {
    /// The label under which the tag is shown.
    pub fn label(&self) -> (r: &'static str)
        ensures
            r@ == tag_label(*self),
    {
        match self {
            RiskTag::ApiActive => "API-ACTIVE",
            RiskTag::ComplexLogic => "COMPLEX-LOGIC",
            RiskTag::DomManipulation => "DOM-MANIPULATION",
        }
    }
}

/// More conditionals than this make a file's logic complex.
pub const DECISION_LIMIT: u64 = 5;

/// The outcome of classifying a traversal state.
pub struct Verdict {
    pub severity: Severity,
    pub tags: Vec<RiskTag>,
    pub function_count: u64,
    pub decision_count: u64,
}

/// The tags that the rules give, in rule order.
pub open spec fn tags_for(remote: bool, decisions: nat, dom: bool) -> Seq<RiskTag> {
    (if remote { seq![RiskTag::ApiActive] } else { Seq::empty() })
        + (if decisions > DECISION_LIMIT { seq![RiskTag::ComplexLogic] } else { Seq::empty() })
        + (if dom { seq![RiskTag::DomManipulation] } else { Seq::empty() })
}

/// The severity that the rules give: each rule that applies sets it, and the
/// last one to apply wins.
pub open spec fn severity_for(remote: bool, decisions: nat, dom: bool) -> Severity {
    if dom {
        Severity::High
    } else if decisions > DECISION_LIMIT {
        Severity::High
    } else if remote {
        Severity::Medium
    } else {
        Severity::Low
    }
}

/// The verdict `v` is the one that the rules give for state `s`.
pub open spec fn verdict_of(s: TraversalState, v: Verdict) -> bool {
    &&& v.severity == severity_for(s.uses_remote_api, s.decision_count as nat, s.uses_dom_mutation)
    &&& v.tags@ == tags_for(s.uses_remote_api, s.decision_count as nat, s.uses_dom_mutation)
    &&& v.function_count == s.function_count
    &&& v.decision_count == s.decision_count
}

/// Applies the rules in order: remote-service use, then complex logic,
/// then DOM mutation. Every state has a verdict.
pub fn classify(state: &TraversalState) -> (r: Verdict)
    ensures
        verdict_of(*state, r),
{
    let mut severity = Severity::Low;
    let mut tags: Vec<RiskTag> = Vec::new();
    if state.uses_remote_api {
        severity = Severity::Medium;
        tags.push(RiskTag::ApiActive);
    }
    if state.decision_count > DECISION_LIMIT {
        severity = Severity::High;
        tags.push(RiskTag::ComplexLogic);
    }
    if state.uses_dom_mutation {
        severity = Severity::High;
        tags.push(RiskTag::DomManipulation);
    }
    assert(tags@ =~= tags_for(state.uses_remote_api, state.decision_count as nat, state.uses_dom_mutation));
    Verdict {
        severity,
        tags,
        function_count: state.function_count,
        decision_count: state.decision_count,
    }
}

} // verus!
