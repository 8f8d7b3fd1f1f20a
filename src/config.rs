//! The options that rules read: one naming pattern per identifier rule.

use vstd::prelude::*;

verus! {

/// Configured naming patterns, read-only for the rules.
#[derive(Clone, Debug)]
pub struct ConfigOption {
    pub re_required_module_ansi: String,
    pub re_required_sequence: String,
    pub re_required_instance: String,
    pub re_forbidden_checker: String,
    pub re_forbidden_property: String,
    pub re_forbidden_generateblock: String,
}

} // verus!
