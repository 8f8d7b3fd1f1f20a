//! Instance identifiers must match a required pattern.

use vstd::prelude::*;
use vstd::string::StringExecFns;
use crate::config::ConfigOption;
use crate::linter::{
    active_pattern, cached_view, check_declaration, load_pattern, scoped_verdict, rule_outcome,
    ConfigError, RuleResult,
};
use crate::pattern::Pattern;
use crate::scope::{scope_step, ScopeTracker};
use crate::syntax::{NodeEvent, NodeKind};

verus! {

/// Flags instance identifiers, inside a hierarchical instance, that do not match the required pattern.
pub struct ReRequiredInstance {
    re: Option<Pattern>,
    scope: ScopeTracker,
}

impl ReRequiredInstance {
    /// A fresh rule, outside every `HierarchicalInstance` and with no pattern compiled
    /// yet.
    pub fn new() -> (r: ReRequiredInstance)
        ensures
            r.wf(),
            r.compiled() is None,
            r.depth() == 0,
    {
        ReRequiredInstance { re: None, scope: ScopeTracker::new(NodeKind::HierarchicalInstance) }
    }

    /// The scope tracker follows `HierarchicalInstance` nodes.
    pub closed spec fn wf(&self) -> bool {
        self.scope.container == NodeKind::HierarchicalInstance
    }

    /// The pattern compiled in this run, if any.
    pub closed spec fn compiled(&self) -> Option<Seq<char>> {
        cached_view(self.re)
    }

    /// How many `HierarchicalInstance` nodes are open.
    pub closed spec fn depth(&self) -> nat {
        self.scope.depth as nat
    }

    /// Judges one event. The configured pattern is compiled on the first call
    /// and kept for the rest of the run; entering and leaving a `HierarchicalInstance`
    /// moves the scope, and entering a `InstanceIdentifier` inside one judges its
    /// identifier.
    pub fn check(&mut self, event: &NodeEvent, option: &ConfigOption) -> (r: Result<
        RuleResult,
        ConfigError,
    >)
        requires
            old(self).wf(),
        ensures
            final(self).wf(),
            rule_outcome(
                old(self).compiled(),
                final(self).compiled(),
                option.re_required_instance@,
                r,
                scoped_verdict(
                    *event,
                    scope_step(NodeKind::HierarchicalInstance, old(self).depth(), *event),
                    NodeKind::InstanceIdentifier,
                    true,
                    active_pattern(old(self).compiled(), option.re_required_instance@),
                ),
            ),
            r is Ok ==> final(self).depth() == scope_step(
                NodeKind::HierarchicalInstance,
                old(self).depth(),
                *event,
            ),
            r is Err ==> final(self).depth() == old(self).depth(),
    {
        match load_pattern(&mut self.re, option.re_required_instance.as_str()) {
            Err(e) => Err(e),
            Ok(()) => {
                self.scope.update(event);
                if !self.scope.is_inside() {
                    return Ok(RuleResult::Pass);
                }
                match &self.re {
                    Some(p) => Ok(check_declaration(event, NodeKind::InstanceIdentifier, true, p)),
                    None => Ok(RuleResult::Pass),
                }
            },
        }
    }

    /// The rule's name, used in reports and configuration.
    pub fn name(&self) -> (r: String)
        ensures
            r@ == "re_required_instance"@,
    {
        String::from_str("re_required_instance")
    }

    /// How to fix a violation, quoting the configured pattern.
    pub fn hint(&self, option: &ConfigOption) -> (r: String)
        ensures
            r@ == "Use an instance identifier matching regex \""@ + option.re_required_instance@ + "\"."@,
    {
        let mut s = String::from_str("Use an instance identifier matching regex \"");
        s.append(option.re_required_instance.as_str());
        s.append("\".");
        s
    }

    /// Why the rule exists.
    pub fn reason(&self) -> (r: String)
        ensures
            r@ == "Identifiers must conform to the naming scheme."@,
    {
        String::from_str("Identifiers must conform to the naming scheme.")
    }
}

} // verus!
