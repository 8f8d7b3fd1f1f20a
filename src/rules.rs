//! The rules, one per module.

pub mod keyword_forbidden_wire_reg;
pub mod re_forbidden_checker;
pub mod re_forbidden_generateblock;
pub mod re_forbidden_property;
pub mod re_required_instance;
pub mod re_required_module_ansi;
pub mod re_required_sequence;
pub mod style_operator_arithmetic;
