//! ANSI-style module identifiers must match a required pattern.

use vstd::prelude::*;
use vstd::string::StringExecFns;
use crate::config::ConfigOption;
use crate::linter::{
    active_pattern, cached_view, check_declaration, declaration_verdict, load_pattern, rule_outcome,
    ConfigError, RuleResult,
};
use crate::pattern::Pattern;
use crate::syntax::{NodeEvent, NodeKind};

verus! {

/// Flags ANSI module headers whose identifier does not match the required pattern.
pub struct ReRequiredModuleAnsi {
    re: Option<Pattern>,
}

impl ReRequiredModuleAnsi {
    /// A fresh rule, with no pattern compiled yet.
    pub fn new() -> (r: ReRequiredModuleAnsi)
        ensures
            r.compiled() is None,
    {
        ReRequiredModuleAnsi { re: None }
    }

    /// The pattern compiled in this run, if any.
    pub closed spec fn compiled(&self) -> Option<Seq<char>> {
        cached_view(self.re)
    }

    /// Judges one event. The configured pattern is compiled on the first call
    /// and kept for the rest of the run; entering a `ModuleAnsiHeader` then judges its
    /// identifier.
    pub fn check(&mut self, event: &NodeEvent, option: &ConfigOption) -> (r: Result<
        RuleResult,
        ConfigError,
    >)
        ensures
            rule_outcome(
                old(self).compiled(),
                final(self).compiled(),
                option.re_required_module_ansi@,
                r,
                declaration_verdict(
                    *event,
                    NodeKind::ModuleAnsiHeader,
                    true,
                    active_pattern(old(self).compiled(), option.re_required_module_ansi@),
                ),
            ),
    {
        match load_pattern(&mut self.re, option.re_required_module_ansi.as_str()) {
            Err(e) => Err(e),
            Ok(()) => match &self.re {
                Some(p) => Ok(check_declaration(event, NodeKind::ModuleAnsiHeader, true, p)),
                None => Ok(RuleResult::Pass),
            },
        }
    }

    /// The rule's name, used in reports and configuration.
    pub fn name(&self) -> (r: String)
        ensures
            r@ == "re_required_module_ansi"@,
    {
        String::from_str("re_required_module_ansi")
    }

    /// How to fix a violation, quoting the configured pattern.
    pub fn hint(&self, option: &ConfigOption) -> (r: String)
        ensures
            r@ == "Use a module identifier matching regex \""@ + option.re_required_module_ansi@ + "\"."@,
    {
        let mut s = String::from_str("Use a module identifier matching regex \"");
        s.append(option.re_required_module_ansi.as_str());
        s.append("\".");
        s
    }

    /// Why the rule exists.
    pub fn reason(&self) -> (r: String)
        ensures
            r@ == "Identifiers must conform to the naming scheme."@,
    {
        String::from_str("Identifiers must conform to the naming scheme.")
    }
}

} // verus!
