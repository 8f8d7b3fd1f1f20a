//! Naming patterns: configured regular expressions, compiled once and
//! matched against whole identifiers.

use vstd::prelude::*;
use vstd::string::StringExecFns;

verus! {

#[verifier::external_type_specification]
#[verifier::external_body]
pub struct ExRegex(regex::Regex);

#[verifier::external_type_specification]
#[verifier::external_body]
pub struct ExRegexError(regex::Error);

/// Whether the regex crate accepts `pattern` (a valid pattern that stays
/// within the default size limit).
pub uninterp spec fn regex_compiles(pattern: Seq<char>) -> bool;

/// Whether the regex compiled from `pattern` matches somewhere in `haystack`.
pub uninterp spec fn regex_finds(pattern: Seq<char>, haystack: Seq<char>) -> bool;

/// A regular expression paired with the text it was compiled from.
pub struct CompiledRegex {
    text: String,
    regex: regex::Regex,
}

impl View for CompiledRegex {
    type V = Seq<char>;

    closed spec fn view(&self) -> Seq<char> {
        self.text@
    }
}

/// Relies on regex::Regex::new: it succeeds exactly on the patterns it
/// accepts, which depends on the pattern text alone.
#[verifier::external_body]
fn compile_regex(pattern: &str) -> (r: Result<CompiledRegex, regex::Error>)
    ensures
        r is Ok <==> regex_compiles(pattern@),
        r matches Ok(c) ==> c@ == pattern@,
{
    match regex::Regex::new(pattern) {
        Ok(regex) => Ok(CompiledRegex { text: pattern.to_string(), regex }),
        Err(e) => Err(e),
    }
}

/// Relies on regex::Regex::is_match: true iff the regex matches anywhere in
/// the haystack.
#[verifier::external_body]
fn regex_is_match(re: &CompiledRegex, haystack: &str) -> (r: bool)
    ensures
        r == regex_finds(re@, haystack@),
{
    re.regex.is_match(haystack)
}

/// The pattern wrapped so that it can only match a whole haystack.
pub open spec fn anchored(pattern: Seq<char>) -> Seq<char> {
    seq!['^', '(', '?', ':'] + pattern + seq![')', '$']
}

/// Whether `text` as a whole is matched by `pattern`.
pub open spec fn fully_matches(pattern: Seq<char>, text: Seq<char>) -> bool {
    regex_finds(anchored(pattern), text)
}

/// Whether a configured pattern is accepted: it compiles by itself and once
/// anchored to the whole text.
pub open spec fn pattern_accepted(pattern: Seq<char>) -> bool {
    regex_compiles(pattern) && regex_compiles(anchored(pattern))
}

/// A configured naming pattern, compiled for whole-text matching.
pub struct Pattern {
    source: String,
    full: CompiledRegex,
}

impl View for Pattern {
    type V = Seq<char>;

    closed spec fn view(&self) -> Seq<char> {
        self.source@
    }
}

impl Pattern {
    #[verifier::type_invariant]
    closed spec fn inv(&self) -> bool {
        self.full@ == anchored(self.source@)
    }

    /// Compiles a configured pattern; `None` when the regex crate rejects it.
    pub fn new(source: &str) -> (r: Option<Pattern>)
        ensures
            r is Some <==> pattern_accepted(source@),
            r matches Some(p) ==> p@ == source@,
    {
        match compile_regex(source) {
            Err(_) => None,
            Ok(_) => {
                let mut text = String::from_str("^(?:");
                text.append(source);
                text.append(")$");
                proof {
                    reveal_strlit("^(?:");
                    reveal_strlit(")$");
                    assert(text@ =~= anchored(source@));
                }
                match compile_regex(text.as_str()) {
                    Err(_) => None,
                    Ok(full) => Some(Pattern { source: String::from_str(source), full }),
                }
            },
        }
    }

    /// Whether `text` as a whole is matched by this pattern.
    pub fn matches_fully(&self, text: &str) -> (r: bool)
        ensures
            r == fully_matches(self@, text@),
    {
        proof {
            use_type_invariant(self);
        }
        regex_is_match(&self.full, text)
    }

    /// The configured pattern text.
    pub fn source(&self) -> (r: &str)
        ensures
            r@ == self@,
    {
        self.source.as_str()
    }
}

} // verus!
