//! Verdicts, configuration errors and the naming policy shared by the
//! identifier rules.

use vstd::prelude::*;
use crate::pattern::{fully_matches, pattern_accepted, Pattern};
use crate::syntax::{NodeEvent, NodeKind};

verus! {

/// The outcome of one rule on one event.
#[derive(Clone, Copy, Debug, PartialEq, Eq, Structural)]
pub enum RuleResult {
    Pass,
    Fail,
}

/// Why a rule cannot take part in a run.
#[derive(Clone, Copy, Debug, PartialEq, Eq, Structural)]
pub enum ConfigError {
    /// The configured pattern is not a regular expression that compiles.
    InvalidPattern,
}

/// The verdict once it is known whether the identifier matched: a required
/// pattern must match, a forbidden one must not.
pub open spec fn match_verdict(required: bool, matched: bool) -> RuleResult {
    if matched == required {
        RuleResult::Pass
    } else {
        RuleResult::Fail
    }
}

/// The naming policy: a required pattern must match the whole identifier, a
/// forbidden one must not.
pub open spec fn naming_verdict(required: bool, text: Seq<char>, pattern: Seq<char>) -> RuleResult {
    match_verdict(required, fully_matches(pattern, text))
}

/// Judges an identifier from whether it matched a required
/// (`required == true`) or a forbidden pattern.
pub fn verdict_for_match(required: bool, matched: bool) -> (r: RuleResult)
    ensures
        r == match_verdict(required, matched),
{
    if matched == required {
        RuleResult::Pass
    } else {
        RuleResult::Fail
    }
}

/// Judges an identifier against a required (`required == true`) or a
/// forbidden pattern.
pub fn check_regex(required: bool, text: &str, pattern: &Pattern) -> (r: RuleResult)
    ensures
        r == naming_verdict(required, text@, pattern@),
{
    verdict_for_match(required, pattern.matches_fully(text))
}

/// The naming policy is complementary in its flag: a required pattern fails
/// exactly the identifiers it does not match, a forbidden one exactly those
/// it matches.
pub proof fn lemma_naming_policy(text: Seq<char>, pattern: Seq<char>)
    ensures
        (naming_verdict(true, text, pattern) == RuleResult::Fail) <==> !fully_matches(
            pattern,
            text,
        ),
        (naming_verdict(false, text, pattern) == RuleResult::Fail) <==> fully_matches(
            pattern,
            text,
        ),
        naming_verdict(true, text, pattern) != naming_verdict(false, text, pattern),
{
}

/// What a lazily compiled pattern cache holds, as pattern text.
pub open spec fn cached_view(cache: Option<Pattern>) -> Option<Seq<char>> {
    match cache {
        Some(p) => Some(p@),
        None => None,
    }
}

/// The pattern a rule judges with: the one compiled earlier in the run if
/// any, else the configured one.
pub open spec fn active_pattern(cached: Option<Seq<char>>, configured: Seq<char>) -> Seq<char> {
    match cached {
        Some(p) => p,
        None => configured,
    }
}

/// The outcome of a pattern rule's check: a configuration error when no
/// pattern was compiled yet and the configured one does not compile (the
/// cache then stays empty); otherwise `verdict`, with the cache holding the
/// active pattern.
pub open spec fn rule_outcome(
    before: Option<Seq<char>>,
    after: Option<Seq<char>>,
    configured: Seq<char>,
    r: Result<RuleResult, ConfigError>,
    verdict: RuleResult,
) -> bool {
    if before is None && !pattern_accepted(configured) {
        r == Err::<RuleResult, ConfigError>(ConfigError::InvalidPattern) && after is None
    } else {
        r == Ok::<RuleResult, ConfigError>(verdict) && after == Some(
            active_pattern(before, configured),
        )
    }
}

/// Fills an empty pattern cache from the configured pattern; a filled cache
/// is kept as it is.
pub fn load_pattern(cache: &mut Option<Pattern>, configured: &str) -> (r: Result<(), ConfigError>)
    ensures
        (r is Err) <==> (*old(cache) is None && !pattern_accepted(configured@)),
        r is Err ==> r == Err::<(), ConfigError>(ConfigError::InvalidPattern) && *final(cache) is None,
        r is Ok ==> cached_view(*final(cache)) == Some(
            active_pattern(cached_view(*old(cache)), configured@),
        ),
{
    if cache.is_some() {
        return Ok(());
    }
    match Pattern::new(configured) {
        Some(p) => {
            *cache = Some(p);
            Ok(())
        },
        None => Err(ConfigError::InvalidPattern),
    }
}

/// The verdict of a declaration rule: entering a node of kind `kind` judges
/// its identifier; every other event passes.
pub open spec fn declaration_verdict(
    event: NodeEvent,
    kind: NodeKind,
    required: bool,
    pattern: Seq<char>,
) -> RuleResult {
    match event {
        NodeEvent::Enter(n) => if n.kind == kind {
            naming_verdict(required, n.text@, pattern)
        } else {
            RuleResult::Pass
        },
        NodeEvent::Leave(_) => RuleResult::Pass,
    }
}

/// Judges one event for a declaration rule.
pub fn check_declaration(event: &NodeEvent, kind: NodeKind, required: bool, pattern: &Pattern) -> (r:
    RuleResult)
    ensures
        r == declaration_verdict(*event, kind, required, pattern@),
{
    match event {
        NodeEvent::Enter(n) => if n.kind == kind {
            check_regex(required, n.text.as_str(), pattern)
        } else {
            RuleResult::Pass
        },
        NodeEvent::Leave(_) => RuleResult::Pass,
    }
}

/// The verdict of a scoped rule, given the container depth after the event:
/// entering a node of kind `target` while inside a container judges its
/// identifier; every other event passes.
pub open spec fn scoped_verdict(
    event: NodeEvent,
    depth: nat,
    target: NodeKind,
    required: bool,
    pattern: Seq<char>,
) -> RuleResult {
    if depth > 0 {
        declaration_verdict(event, target, required, pattern)
    } else {
        RuleResult::Pass
    }
}

} // verus!
