//! Generate block identifiers must not match a forbidden pattern.

use vstd::prelude::*;
use vstd::string::StringExecFns;
use crate::config::ConfigOption;
use crate::linter::{
    active_pattern, cached_view, check_declaration, load_pattern, scoped_verdict, rule_outcome,
    ConfigError, RuleResult,
};
use crate::pattern::Pattern;
use crate::scope::{scope_step, ScopeTracker};
use crate::syntax::{NodeEvent, NodeKind};

verus! {

/// Flags generate block identifiers, inside a generate block, that match the forbidden pattern.
pub struct ReForbiddenGenerateblock {
    re: Option<Pattern>,
    scope: ScopeTracker,
}

impl ReForbiddenGenerateblock {
    /// A fresh rule, outside every `GenerateBlock` and with no pattern compiled
    /// yet.
    pub fn new() -> (r: ReForbiddenGenerateblock)
        ensures
            r.wf(),
            r.compiled() is None,
            r.depth() == 0,
    {
        ReForbiddenGenerateblock { re: None, scope: ScopeTracker::new(NodeKind::GenerateBlock) }
    }

    /// The scope tracker follows `GenerateBlock` nodes.
    pub closed spec fn wf(&self) -> bool {
        self.scope.container == NodeKind::GenerateBlock
    }

    /// The pattern compiled in this run, if any.
    pub closed spec fn compiled(&self) -> Option<Seq<char>> {
        cached_view(self.re)
    }

    /// How many `GenerateBlock` nodes are open.
    pub closed spec fn depth(&self) -> nat {
        self.scope.depth as nat
    }

    /// Judges one event. The configured pattern is compiled on the first call
    /// and kept for the rest of the run; entering and leaving a `GenerateBlock`
    /// moves the scope, and entering a `GenerateBlockIdentifier` inside one judges its
    /// identifier.
    pub fn check(&mut self, event: &NodeEvent, option: &ConfigOption) -> (r: Result<
        RuleResult,
        ConfigError,
    >)
        requires
            old(self).wf(),
        ensures
            final(self).wf(),
            rule_outcome(
                old(self).compiled(),
                final(self).compiled(),
                option.re_forbidden_generateblock@,
                r,
                scoped_verdict(
                    *event,
                    scope_step(NodeKind::GenerateBlock, old(self).depth(), *event),
                    NodeKind::GenerateBlockIdentifier,
                    false,
                    active_pattern(old(self).compiled(), option.re_forbidden_generateblock@),
                ),
            ),
            r is Ok ==> final(self).depth() == scope_step(
                NodeKind::GenerateBlock,
                old(self).depth(),
                *event,
            ),
            r is Err ==> final(self).depth() == old(self).depth(),
    {
        match load_pattern(&mut self.re, option.re_forbidden_generateblock.as_str()) {
            Err(e) => Err(e),
            Ok(()) => {
                self.scope.update(event);
                if !self.scope.is_inside() {
                    return Ok(RuleResult::Pass);
                }
                match &self.re {
                    Some(p) => Ok(check_declaration(event, NodeKind::GenerateBlockIdentifier, false, p)),
                    None => Ok(RuleResult::Pass),
                }
            },
        }
    }

    /// The rule's name, used in reports and configuration.
    pub fn name(&self) -> (r: String)
        ensures
            r@ == "re_forbidden_generateblock"@,
    {
        String::from_str("re_forbidden_generateblock")
    }

    /// How to fix a violation, quoting the configured pattern.
    pub fn hint(&self, option: &ConfigOption) -> (r: String)
        ensures
            r@ == "Use a generate block identifier not matching regex \""@ + option.re_forbidden_generateblock@ + "\"."@,
    {
        let mut s = String::from_str("Use a generate block identifier not matching regex \"");
        s.append(option.re_forbidden_generateblock.as_str());
        s.append("\".");
        s
    }

    /// Why the rule exists.
    pub fn reason(&self) -> (r: String)
        ensures
            r@ == "Identifiers must conform to the naming scheme."@,
    {
        String::from_str("Identifiers must conform to the naming scheme.")
    }
}

} // verus!
