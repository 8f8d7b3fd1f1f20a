//! Spacing after the arithmetic operators `+ - * / % **`.

use vstd::prelude::*;
use vstd::string::StringExecFns;
use crate::config::ConfigOption;
use crate::linter::RuleResult;
use crate::operator::{check_operator_text, operator_verdict};
use crate::syntax::{NodeEvent, NodeKind};

verus! {

/// The verdict on one event: entering a binary operator judges the spacing
/// after it, everything else passes.
pub open spec fn operator_event_verdict(event: NodeEvent) -> RuleResult {
    match event {
        NodeEvent::Enter(n) => if n.kind == NodeKind::BinaryOperator {
            operator_verdict(n.text@)
        } else {
            RuleResult::Pass
        },
        NodeEvent::Leave(_) => RuleResult::Pass,
    }
}

/// Flags arithmetic operators followed by anything but nothing, a line
/// break, or exactly one space that ends the text or opens a comment.
pub struct StyleOperatorArithmetic;

impl StyleOperatorArithmetic {
    pub fn new() -> (r: StyleOperatorArithmetic) {
        StyleOperatorArithmetic
    }

    /// Judges one event; the rule keeps no state.
    pub fn check(&mut self, event: &NodeEvent, _option: &ConfigOption) -> (r: RuleResult)
        ensures
            r == operator_event_verdict(*event),
    {
        match event {
            NodeEvent::Enter(n) => if n.kind == NodeKind::BinaryOperator {
                check_operator_text(n.text.as_str())
            } else {
                RuleResult::Pass
            },
            NodeEvent::Leave(_) => RuleResult::Pass,
        }
    }

    /// The rule's name, used in reports and configuration.
    pub fn name(&self) -> (r: String)
        ensures
            r@ == "style_operator_arithmetic"@,
    {
        String::from_str("style_operator_arithmetic")
    }

    /// How to fix a violation.
    pub fn hint(&self, _option: &ConfigOption) -> (r: String)
        ensures
            r@ == "Follow operator with a symbol, identifier, newline, or exactly 1 space."@,
    {
        String::from_str("Follow operator with a symbol, identifier, newline, or exactly 1 space.")
    }

    /// Why the rule exists.
    pub fn reason(&self) -> (r: String)
        ensures
            r@ == "Consistent use of whitespace enhances readability by reducing visual noise."@,
    {
        String::from_str(
            "Consistent use of whitespace enhances readability by reducing visual noise.",
        )
    }
}

} // verus!
