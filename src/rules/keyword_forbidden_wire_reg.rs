//! The `wire` and `reg` keywords are not to be used.

use vstd::prelude::*;
use vstd::string::StringExecFns;
use crate::config::ConfigOption;
use crate::linter::RuleResult;
use crate::syntax::{NodeEvent, NodeKind};

verus! {

/// The verdict on one event: entering a `wire` net type or a `reg` vector
/// type fails, everything else passes.
pub open spec fn wire_reg_verdict(event: NodeEvent) -> RuleResult {
    match event {
        NodeEvent::Enter(n) => if n.kind == NodeKind::NetTypeWire || n.kind
            == NodeKind::IntegerVectorTypeReg {
            RuleResult::Fail
        } else {
            RuleResult::Pass
        },
        NodeEvent::Leave(_) => RuleResult::Pass,
    }
}

/// Flags every use of the `wire` and `reg` keywords.
pub struct KeywordForbiddenWireReg;

impl KeywordForbiddenWireReg {
    pub fn new() -> (r: KeywordForbiddenWireReg) {
        KeywordForbiddenWireReg
    }

    /// Judges one event; the rule keeps no state.
    pub fn check(&mut self, event: &NodeEvent, _option: &ConfigOption) -> (r: RuleResult)
        ensures
            r == wire_reg_verdict(*event),
    {
        match event {
            NodeEvent::Enter(n) => if n.kind == NodeKind::NetTypeWire || n.kind
                == NodeKind::IntegerVectorTypeReg {
                RuleResult::Fail
            } else {
                RuleResult::Pass
            },
            NodeEvent::Leave(_) => RuleResult::Pass,
        }
    }

    /// The rule's name, used in reports and configuration.
    pub fn name(&self) -> (r: String)
        ensures
            r@ == "keyword_forbidden_wire_reg"@,
    {
        String::from_str("keyword_forbidden_wire_reg")
    }

    /// How to fix a violation.
    pub fn hint(&self, _option: &ConfigOption) -> (r: String)
        ensures
            r@ == "Replace `wire` or `reg` keywords with `logic`, `tri` and/or `var`."@,
    {
        String::from_str("Replace `wire` or `reg` keywords with `logic`, `tri` and/or `var`.")
    }

    /// Why the rule exists.
    pub fn reason(&self) -> (r: String)
        ensures
            r@ == "Explicit datatype `logic` and/or datakind `var`/`tri` better describes intent."@,
    {
        String::from_str(
            "Explicit datatype `logic` and/or datakind `var`/`tri` better describes intent.",
        )
    }
}

} // verus!
