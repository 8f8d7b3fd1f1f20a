//! Whitespace after arithmetic operators.

use vstd::prelude::*;
use vstd::string::StrSliceExecFns;
use crate::linter::RuleResult;

verus! {

/// Unicode white space.
pub open spec fn is_space(c: char) -> bool {
    ('\t' <= c && c <= '\r') || c == ' ' || c == '\u{85}' || c == '\u{a0}' || c == '\u{1680}'
        || ('\u{2000}' <= c && c <= '\u{200a}') || c == '\u{2028}' || c == '\u{2029}' || c
        == '\u{202f}' || c == '\u{205f}' || c == '\u{3000}'
}

/// The first position at or after `i` that holds no white space (or the end).
pub open spec fn skip_spaces(t: Seq<char>, i: int) -> int
    decreases t.len() - i,
{
    if i < 0 || i >= t.len() || !is_space(t[i]) {
        i
    } else {
        skip_spaces(t, i + 1)
    }
}

/// The first position at or after `i` that holds white space (or the end).
pub open spec fn skip_word(t: Seq<char>, i: int) -> int
    decreases t.len() - i,
{
    if i < 0 || i >= t.len() || is_space(t[i]) {
        i
    } else {
        skip_word(t, i + 1)
    }
}

/// The operator text split into the operator symbol (the first run of
/// non-space characters) and its successor (everything after it); `None`
/// when the text holds no non-space character.
pub open spec fn split_operator(t: Seq<char>) -> Option<(Seq<char>, Seq<char>)> {
    let start = skip_spaces(t, 0);
    let end = skip_word(t, start);
    if start >= t.len() {
        None
    } else {
        Some((t.subrange(start, end), t.subrange(end, t.len() as int)))
    }
}

/// The operators whose spacing is checked: `+ - * / % **`.
pub open spec fn is_arithmetic(op: Seq<char>) -> bool {
    op == seq!['+'] || op == seq!['-'] || op == seq!['*'] || op == seq!['/'] || op == seq!['%']
        || op == seq!['*', '*']
}

/// A line break that may follow an operator.
pub open spec fn is_line_break(c: char) -> bool {
    c == '\n' || c == '\u{b}' || c == '\u{c}' || c == '\r'
}

/// What may follow an arithmetic operator: nothing, a line break, exactly
/// one space at the end, or exactly one space and then a comment.
pub open spec fn successor_allowed(s: Seq<char>) -> bool {
    s.len() == 0 || is_line_break(s[0]) || s == seq![' '] || (s.len() >= 3 && s[0] == ' ' && s[1]
        == '/' && (s[2] == '/' || s[2] == '*'))
}

pub open spec fn successor_verdict(s: Seq<char>) -> RuleResult {
    if successor_allowed(s) {
        RuleResult::Pass
    } else {
        RuleResult::Fail
    }
}

/// The verdict on an operator node's text.
pub open spec fn operator_verdict(t: Seq<char>) -> RuleResult {
    match split_operator(t) {
        None => RuleResult::Pass,
        Some((op, succ)) => if is_arithmetic(op) {
            successor_verdict(succ)
        } else {
            RuleResult::Pass
        },
    }
}

fn char_is_space(c: char) -> (r: bool)
    ensures
        r == is_space(c),
{
    ('\t' <= c && c <= '\r') || c == ' ' || c == '\u{85}' || c == '\u{a0}' || c == '\u{1680}'
        || ('\u{2000}' <= c && c <= '\u{200a}') || c == '\u{2028}' || c == '\u{2029}' || c
        == '\u{202f}' || c == '\u{205f}' || c == '\u{3000}'
}

/// Judges the text that follows an operator symbol.
pub fn check_successor(s: &str) -> (r: RuleResult)
    ensures
        r == successor_verdict(s@),
{
    let len = s.unicode_len();
    if len == 0 {
        return RuleResult::Pass;
    }
    let c0 = s.get_char(0);
    if c0 == '\n' || c0 == '\u{b}' || c0 == '\u{c}' || c0 == '\r' {
        return RuleResult::Pass;
    }
    if c0 != ' ' {
        return RuleResult::Fail;
    }
    if len == 1 {
        assert(s@ =~= seq![' ']);
        return RuleResult::Pass;
    }
    if len >= 3 {
        let c1 = s.get_char(1);
        let c2 = s.get_char(2);
        if c1 == '/' && (c2 == '/' || c2 == '*') {
            return RuleResult::Pass;
        }
    }
    RuleResult::Fail
}

/// Judges an operator node's text: an arithmetic operator must be followed
/// by nothing, a line break, or exactly one space that ends the text or
/// opens a comment. Every other operator passes.
pub fn check_operator_text(t: &str) -> (r: RuleResult)
    ensures
        r == operator_verdict(t@),
{
    let len = t.unicode_len();
    let mut start: usize = 0;
    while start < len && char_is_space(t.get_char(start))
        invariant
            len == t@.len(),
            0 <= start <= len,
            skip_spaces(t@, start as int) == skip_spaces(t@, 0),
        decreases len - start,
    {
        start = start + 1;
    }
    assert(skip_spaces(t@, start as int) == start as int);
    if start == len {
        return RuleResult::Pass;
    }
    let mut end: usize = start;
    while end < len && !char_is_space(t.get_char(end))
        invariant
            len == t@.len(),
            start <= end <= len,
            skip_word(t@, end as int) == skip_word(t@, start as int),
        decreases len - end,
    {
        end = end + 1;
    }
    assert(skip_word(t@, end as int) == end as int);
    let op_len: usize = end - start;
    let first = t.get_char(start);
    let arithmetic = if op_len == 1 {
        first == '+' || first == '-' || first == '*' || first == '/' || first == '%'
    } else if op_len == 2 {
        first == '*' && t.get_char(start + 1) == '*'
    } else {
        false
    };
    proof {
        let op = t@.subrange(start as int, end as int);
        assert(op.len() == op_len);
        if op_len == 1 {
            assert(op =~= seq![first]);
            assert(seq![first][0] == first);
        } else if op_len == 2 {
            assert(op[0] == first);
            if arithmetic {
                assert(op =~= seq!['*', '*']);
            } else {
                assert(seq!['*', '*'][0] == '*' && seq!['*', '*'][1] == '*');
                assert(op != seq!['*', '*']);
            }
        }
        assert(is_arithmetic(op) == arithmetic);
    }
    if !arithmetic {
        return RuleResult::Pass;
    }
    let succ = t.substring_char(end, len);
    check_successor(succ)
}

/// Every text gets exactly one verdict, and judging it again gives the same
/// one; for an arithmetic operator it is `Pass` exactly on the allowed
/// successors.
pub proof fn lemma_operator_verdict_total(t: Seq<char>, u: Seq<char>)
    ensures
        (operator_verdict(t) == RuleResult::Pass) != (operator_verdict(t) == RuleResult::Fail),
        t == u ==> operator_verdict(t) == operator_verdict(u),
        split_operator(t) matches Some((op, succ)) ==> is_arithmetic(op) ==> ((operator_verdict(t)
            == RuleResult::Pass) <==> successor_allowed(succ)),
{
}

} // verus!
