use svlint::config::ConfigOption;
use svlint::linter::{check_regex, verdict_for_match, ConfigError, RuleResult};
use svlint::operator::{check_operator_text, check_successor};
use svlint::pattern::Pattern;
use svlint::rules::keyword_forbidden_wire_reg::KeywordForbiddenWireReg;
use svlint::rules::re_forbidden_checker::ReForbiddenChecker;
use svlint::rules::re_forbidden_generateblock::ReForbiddenGenerateblock;
use svlint::rules::re_forbidden_property::ReForbiddenProperty;
use svlint::rules::re_required_instance::ReRequiredInstance;
use svlint::rules::re_required_module_ansi::ReRequiredModuleAnsi;
use svlint::rules::re_required_sequence::ReRequiredSequence;
use svlint::rules::style_operator_arithmetic::StyleOperatorArithmetic;
use svlint::syntax::{Node, NodeEvent, NodeKind};

fn options(pattern: &str) -> ConfigOption {
    ConfigOption {
        re_required_module_ansi: pattern.to_string(),
        re_required_sequence: pattern.to_string(),
        re_required_instance: pattern.to_string(),
        re_forbidden_checker: pattern.to_string(),
        re_forbidden_property: pattern.to_string(),
        re_forbidden_generateblock: pattern.to_string(),
    }
}

fn node(kind: NodeKind, text: &str) -> Node {
    Node { kind, text: text.to_string() }
}

fn enter(kind: NodeKind, text: &str) -> NodeEvent {
    NodeEvent::Enter(node(kind, text))
}

fn leave(kind: NodeKind, text: &str) -> NodeEvent {
    NodeEvent::Leave(node(kind, text))
}

#[test]
fn operator_one_space_then_digit_fails() {
    assert_eq!(check_operator_text("+ 42"), RuleResult::Fail);
}

#[test]
fn operator_then_newline_passes() {
    assert_eq!(check_operator_text("+\n"), RuleResult::Pass);
}

#[test]
fn operator_alone_passes() {
    assert_eq!(check_operator_text("+"), RuleResult::Pass);
}

#[test]
fn operator_one_space_then_comment_passes() {
    assert_eq!(check_operator_text("+ //comment"), RuleResult::Pass);
    assert_eq!(check_operator_text("* /* c */"), RuleResult::Pass);
}

#[test]
fn operator_spacing_violations() {
    assert_eq!(check_operator_text("-  "), RuleResult::Fail);
    assert_eq!(check_operator_text("%\t"), RuleResult::Fail);
    assert_eq!(check_operator_text("**  // c"), RuleResult::Fail);
    assert_eq!(check_operator_text("/ x"), RuleResult::Fail);
}

#[test]
fn operator_spacing_allowed_shapes() {
    assert_eq!(check_operator_text("- "), RuleResult::Pass);
    assert_eq!(check_operator_text("**\r\n  "), RuleResult::Pass);
    assert_eq!(check_operator_text("  + "), RuleResult::Pass);
}

#[test]
fn non_arithmetic_operators_are_exempt() {
    assert_eq!(check_operator_text("==   "), RuleResult::Pass);
    assert_eq!(check_operator_text("&& x"), RuleResult::Pass);
    assert_eq!(check_operator_text("***  "), RuleResult::Pass);
    assert_eq!(check_operator_text(""), RuleResult::Pass);
    assert_eq!(check_operator_text("   "), RuleResult::Pass);
}

#[test]
fn successor_shapes() {
    assert_eq!(check_successor(""), RuleResult::Pass);
    assert_eq!(check_successor("\n  x"), RuleResult::Pass);
    assert_eq!(check_successor(" "), RuleResult::Pass);
    assert_eq!(check_successor(" // c"), RuleResult::Pass);
    assert_eq!(check_successor("  "), RuleResult::Fail);
    assert_eq!(check_successor(" 4"), RuleResult::Fail);
    assert_eq!(check_successor(" /"), RuleResult::Fail);
}

#[test]
fn operator_verdict_is_repeatable() {
    for t in ["+ 42", "+\n", "+", "+ //c", "-  ", "== "] {
        assert_eq!(check_operator_text(t), check_operator_text(t));
    }
}

#[test]
fn forbidden_pattern_flags_matching_identifier() {
    let p = Pattern::new("^.*_reg$").unwrap();
    assert_eq!(check_regex(false, "cnt_reg", &p), RuleResult::Fail);
}

#[test]
fn forbidden_pattern_passes_other_identifier() {
    let p = Pattern::new("^.*_reg$").unwrap();
    assert_eq!(check_regex(false, "cnt_q", &p), RuleResult::Pass);
}

#[test]
fn naming_policy_is_complementary() {
    let p = Pattern::new("[a-z]+_q").unwrap();
    for s in ["cnt_q", "cnt_reg", "", "x_q_q"] {
        assert_ne!(check_regex(true, s, &p), check_regex(false, s, &p));
    }
    assert_eq!(check_regex(true, "cnt_q", &p), RuleResult::Pass);
    assert_eq!(check_regex(true, "cnt_reg", &p), RuleResult::Fail);
}

#[test]
fn matching_covers_the_whole_identifier() {
    let p = Pattern::new("[a-z]+").unwrap();
    assert!(p.matches_fully("abc"));
    assert!(!p.matches_fully("abc1"));
    assert!(!p.matches_fully("1abc"));
    assert_eq!(check_regex(true, "abc1", &p), RuleResult::Fail);
    let alt = Pattern::new("a|ab").unwrap();
    assert!(alt.matches_fully("ab"));
}

#[test]
fn invalid_patterns_are_rejected() {
    assert!(Pattern::new("foo(bar").is_none());
    assert!(Pattern::new("a)|(b").is_none());
    assert_eq!(Pattern::new("^[a-z]+$").unwrap().source(), "^[a-z]+$");
}

#[test]
fn checker_rule_judges_declarations() {
    let opt = options("^.*_reg$");
    let mut rule = ReForbiddenChecker::new();
    assert_eq!(rule.check(&enter(NodeKind::CheckerDeclaration, "cnt_reg"), &opt), Ok(RuleResult::Fail));
    assert_eq!(rule.check(&enter(NodeKind::CheckerDeclaration, "cnt_q"), &opt), Ok(RuleResult::Pass));
    assert_eq!(rule.check(&leave(NodeKind::CheckerDeclaration, "cnt_reg"), &opt), Ok(RuleResult::Pass));
    assert_eq!(rule.check(&enter(NodeKind::PropertyDeclaration, "cnt_reg"), &opt), Ok(RuleResult::Pass));
}

#[test]
fn property_rule_judges_declarations() {
    let opt = options("^p_.*$");
    let mut rule = ReForbiddenProperty::new();
    assert_eq!(rule.check(&enter(NodeKind::PropertyDeclaration, "p_x"), &opt), Ok(RuleResult::Fail));
    assert_eq!(rule.check(&enter(NodeKind::PropertyDeclaration, "x"), &opt), Ok(RuleResult::Pass));
    assert_eq!(rule.check(&enter(NodeKind::CheckerDeclaration, "p_x"), &opt), Ok(RuleResult::Pass));
}

#[test]
fn module_rule_requires_pattern() {
    let opt = options("^[a-z]+$");
    let mut rule = ReRequiredModuleAnsi::new();
    assert_eq!(rule.check(&enter(NodeKind::ModuleAnsiHeader, "top"), &opt), Ok(RuleResult::Pass));
    assert_eq!(rule.check(&enter(NodeKind::ModuleAnsiHeader, "Top"), &opt), Ok(RuleResult::Fail));
    assert_eq!(rule.check(&leave(NodeKind::ModuleAnsiHeader, "Top"), &opt), Ok(RuleResult::Pass));
}

#[test]
fn sequence_rule_requires_pattern() {
    let opt = options("^s_[a-z]+$");
    let mut rule = ReRequiredSequence::new();
    assert_eq!(rule.check(&enter(NodeKind::SequenceDeclaration, "s_req"), &opt), Ok(RuleResult::Pass));
    assert_eq!(rule.check(&enter(NodeKind::SequenceDeclaration, "req"), &opt), Ok(RuleResult::Fail));
}

#[test]
fn invalid_configured_pattern_is_a_configuration_error() {
    let opt = options("foo(bar");
    let mut rule = ReRequiredSequence::new();
    assert_eq!(rule.check(&enter(NodeKind::SequenceDeclaration, "s"), &opt), Err(ConfigError::InvalidPattern));
    assert_eq!(rule.check(&leave(NodeKind::Other, ""), &opt), Err(ConfigError::InvalidPattern));
    let mut scoped = ReRequiredInstance::new();
    assert_eq!(scoped.check(&enter(NodeKind::HierarchicalInstance, ""), &opt), Err(ConfigError::InvalidPattern));
}

#[test]
fn compiled_pattern_is_kept_for_the_run() {
    let mut rule = ReForbiddenChecker::new();
    assert_eq!(rule.check(&leave(NodeKind::Other, ""), &options("^a$")), Ok(RuleResult::Pass));
    assert_eq!(rule.check(&enter(NodeKind::CheckerDeclaration, "a"), &options("^b$")), Ok(RuleResult::Fail));
    assert_eq!(rule.check(&enter(NodeKind::CheckerDeclaration, "b"), &options("foo(bar")), Ok(RuleResult::Pass));
}

#[test]
fn instance_checked_only_inside_hierarchical_instance() {
    let opt = options("^u_[a-z]+$");
    let mut rule = ReRequiredInstance::new();
    assert_eq!(rule.check(&enter(NodeKind::InstanceIdentifier, "adder"), &opt), Ok(RuleResult::Pass));
    assert_eq!(rule.check(&enter(NodeKind::HierarchicalInstance, ""), &opt), Ok(RuleResult::Pass));
    assert_eq!(rule.check(&enter(NodeKind::InstanceIdentifier, "u_adder"), &opt), Ok(RuleResult::Pass));
    assert_eq!(rule.check(&enter(NodeKind::InstanceIdentifier, "adder"), &opt), Ok(RuleResult::Fail));
    assert_eq!(rule.check(&leave(NodeKind::HierarchicalInstance, ""), &opt), Ok(RuleResult::Pass));
    assert_eq!(rule.check(&enter(NodeKind::InstanceIdentifier, "adder"), &opt), Ok(RuleResult::Pass));
}

#[test]
fn inner_container_leave_keeps_outer_scope() {
    let opt = options("^g_[a-z]+$");
    let mut rule = ReForbiddenGenerateblock::new();
    let events = [
        enter(NodeKind::GenerateBlock, "outer"),
        enter(NodeKind::GenerateBlock, "inner"),
        enter(NodeKind::GenerateBlockIdentifier, "g_inner"),
        leave(NodeKind::GenerateBlockIdentifier, "g_inner"),
        leave(NodeKind::GenerateBlock, "inner"),
    ];
    let verdicts: Vec<_> = events.iter().map(|e| rule.check(e, &opt)).collect();
    assert_eq!(verdicts[2], Ok(RuleResult::Fail));
    assert_eq!(rule.check(&enter(NodeKind::GenerateBlockIdentifier, "g_outer"), &opt), Ok(RuleResult::Fail));
    assert_eq!(rule.check(&leave(NodeKind::GenerateBlock, "outer"), &opt), Ok(RuleResult::Pass));
    assert_eq!(rule.check(&enter(NodeKind::GenerateBlockIdentifier, "g_after"), &opt), Ok(RuleResult::Pass));
}

#[test]
fn balanced_traversal_returns_scope_to_outside() {
    let opt = options("^u_[a-z]+$");
    let mut rule = ReRequiredInstance::new();
    let traversal = [
        enter(NodeKind::HierarchicalInstance, "a"),
        enter(NodeKind::HierarchicalInstance, "b"),
        leave(NodeKind::HierarchicalInstance, "b"),
        enter(NodeKind::HierarchicalInstance, "c"),
        leave(NodeKind::HierarchicalInstance, "c"),
        leave(NodeKind::HierarchicalInstance, "a"),
    ];
    for e in traversal.iter() {
        assert_eq!(rule.check(e, &opt), Ok(RuleResult::Pass));
    }
    assert_eq!(rule.check(&enter(NodeKind::InstanceIdentifier, "bad"), &opt), Ok(RuleResult::Pass));
}

#[test]
fn wire_and_reg_are_forbidden() {
    let opt = options("x");
    let mut rule = KeywordForbiddenWireReg::new();
    assert_eq!(rule.check(&enter(NodeKind::NetTypeWire, "wire"), &opt), RuleResult::Fail);
    assert_eq!(rule.check(&enter(NodeKind::IntegerVectorTypeReg, "reg"), &opt), RuleResult::Fail);
    assert_eq!(rule.check(&leave(NodeKind::NetTypeWire, "wire"), &opt), RuleResult::Pass);
    assert_eq!(rule.check(&enter(NodeKind::Other, "logic"), &opt), RuleResult::Pass);
}

#[test]
fn operator_rule_judges_binary_operators() {
    let opt = options("x");
    let mut rule = StyleOperatorArithmetic::new();
    assert_eq!(rule.check(&enter(NodeKind::BinaryOperator, "+ 42"), &opt), RuleResult::Fail);
    assert_eq!(rule.check(&enter(NodeKind::BinaryOperator, "+ "), &opt), RuleResult::Pass);
    assert_eq!(rule.check(&leave(NodeKind::BinaryOperator, "+ 42"), &opt), RuleResult::Pass);
    assert_eq!(rule.check(&enter(NodeKind::Other, "+ 42"), &opt), RuleResult::Pass);
}

#[test]
fn names_hints_and_reasons() {
    let opt = options("^x$");
    assert_eq!(ReForbiddenChecker::new().name(), "re_forbidden_checker");
    assert_eq!(
        ReForbiddenChecker::new().hint(&opt),
        "Use a checker identifier not matching regex \"^x$\"."
    );
    assert_eq!(
        ReRequiredInstance::new().hint(&opt),
        "Use an instance identifier matching regex \"^x$\"."
    );
    assert_eq!(ReRequiredModuleAnsi::new().reason(), "Identifiers must conform to the naming scheme.");
    assert_eq!(ReForbiddenGenerateblock::new().name(), "re_forbidden_generateblock");
    assert_eq!(ReForbiddenProperty::new().name(), "re_forbidden_property");
    assert_eq!(ReRequiredSequence::new().name(), "re_required_sequence");
    assert_eq!(KeywordForbiddenWireReg::new().name(), "keyword_forbidden_wire_reg");
    assert_eq!(
        StyleOperatorArithmetic::new().hint(&opt),
        "Follow operator with a symbol, identifier, newline, or exactly 1 space."
    );
}

#[test]
fn verdict_from_match_result() {
    assert_eq!(verdict_for_match(true, true), RuleResult::Pass);
    assert_eq!(verdict_for_match(true, false), RuleResult::Fail);
    assert_eq!(verdict_for_match(false, true), RuleResult::Fail);
    assert_eq!(verdict_for_match(false, false), RuleResult::Pass);
}
