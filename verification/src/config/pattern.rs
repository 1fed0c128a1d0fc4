//! Compiled regular expressions with safety limits.

use vstd::prelude::*;
use vstd::string::StrSliceExecFns;
use crate::config::ConfigError;

verus! {

/// Longest pattern, in characters, that is handed to the compiler.
pub const MAX_REGEX_PATTERN_LENGTH: usize = 256;

/// Ceiling, in bytes, on the size of a compiled pattern: 10 MiB.
pub const REGEX_SIZE_LIMIT: usize = 10_485_760;

/// `regex::Regex`, a compiled regular expression; nothing of its inside is
/// visible to the proofs.
#[verifier::external_type_specification]
#[verifier::external_body]
pub struct ExRegex(regex::Regex);

/// `regex::Error`, the compiler's report of a failure; nothing of its
/// inside is visible to the proofs.
#[verifier::external_type_specification]
#[verifier::external_body]
pub struct ExRegexError(regex::Error);

/// The pattern text that a compiled expression was built from, which is
/// what `Regex::as_str` returns.
pub uninterp spec fn regex_source(re: regex::Regex) -> Seq<char>;

/// The size ceiling, in bytes, that a compiled expression was built under:
/// the limit that `RegexBuilder::size_limit` put into the builder's
/// configuration before `build` was called.
pub uninterp spec fn regex_ceiling(re: regex::Regex) -> usize;

/// Whether the expression written by `pattern`, compiled with the default
/// syntax options, finds a match anywhere in `text`.
pub uninterp spec fn regex_matches(pattern: Seq<char>, text: Seq<char>) -> bool;

/// `Regex::clone`. Claimed of it: the copy reports the same pattern text
/// as the expression it was copied from, and was built under the same
/// size ceiling.
pub assume_specification[ <regex::Regex as Clone>::clone ](re: &regex::Regex) -> (r: regex::Regex)
    ensures
        regex_source(r) == regex_source(*re),
        regex_ceiling(r) == regex_ceiling(*re),
;

/// A regular expression that passed the length guard and compiled under a
/// size ceiling. Its view is the pattern text.
#[derive(Debug, Clone)]
pub struct Pattern {
    regex: regex::Regex,
}

impl View for Pattern {
    type V = Seq<char>;

    closed spec fn view(&self) -> Seq<char> {
        regex_source(self.regex)
    }
}

/// Every pattern of the list was compiled under the ceiling of
/// [`REGEX_SIZE_LIMIT`].
pub open spec fn all_under_ceiling(patterns: Seq<Pattern>) -> bool {
    forall|i: int|
        0 <= i < patterns.len() ==> (#[trigger] patterns[i]).ceiling() == REGEX_SIZE_LIMIT
}

/// Calls `regex::RegexBuilder::new(pattern).size_limit(size_limit).build()`.
/// Claimed of it: an expression that comes back was built from exactly the
/// text `pattern`, which is what `Regex::as_str` reports, and under the
/// ceiling `size_limit`, which is what the builder was configured with.
/// Nothing is claimed about when compilation succeeds.
#[verifier::external_body]
fn build_pattern(pattern: &str, size_limit: usize) -> (r: Result<Pattern, regex::Error>)
    ensures
        r matches Ok(p) ==> regex_source(p.regex) == pattern@ && regex_ceiling(p.regex)
            == size_limit,
{
    match regex::RegexBuilder::new(pattern).size_limit(size_limit).build() {
        Ok(regex) => Ok(Pattern { regex }),
        Err(e) => Err(e),
    }
}

/// Calls `regex::Regex::is_match` on the compiled expression. Claimed of it:
/// the answer is a function of the pattern text and the searched text alone,
/// named [`regex_matches`]; every `Pattern` is compiled with the default
/// syntax options, so no other setting enters.
#[verifier::external_body]
fn pattern_is_match(p: &Pattern, text: &str) -> (b: bool)
    ensures
        b == regex_matches(regex_source(p.regex), text@),
{
    p.regex.is_match(text)
}

/// Calls `regex::Regex::as_str`. Claimed of it: it returns the pattern
/// text that the expression was built from, named [`regex_source`].
#[verifier::external_body]
fn pattern_source(p: &Pattern) -> (text: &str)
    ensures
        text@ == regex_source(p.regex),
{
    p.regex.as_str()
}

impl Pattern {
    /// The size ceiling, in bytes, that the expression was compiled under.
    pub closed spec fn ceiling(&self) -> usize {
        regex_ceiling(self.regex)
    }

    /// The pattern text.
    pub fn as_str(&self) -> (text: &str)
        ensures
            text@ == self@,
    {
        pattern_source(self)
    }

    /// Whether the expression finds a match anywhere in `text`.
    pub fn is_match(&self, text: &str) -> (b: bool)
        ensures
            b == regex_matches(self@, text@),
    {
        pattern_is_match(self, text)
    }

    /// What the compiler's answer becomes: a compiled expression is kept,
    /// any failure is reported as `InvalidPattern`.
    pub fn accept(built: Result<Pattern, regex::Error>) -> (r: Result<Pattern, ConfigError>)
        ensures
            built matches Ok(p) ==> r == Ok::<Pattern, ConfigError>(p),
            built is Err ==> r == Err::<Pattern, ConfigError>(ConfigError::InvalidPattern),
    {
        match built {
            Ok(p) => Ok(p),
            Err(_) => Err(ConfigError::InvalidPattern),
        }
    }
}

/// Whether a pattern is within the length guard.
pub open spec fn within_length_guard(pattern: Seq<char>) -> bool {
    pattern.len() <= MAX_REGEX_PATTERN_LENGTH
}

/// Compiles a pattern under the safety limits.
///
/// A pattern of more than 256 characters is refused as `PatternTooLong` without
/// being compiled. A shorter one is handed to the compiler with the 10 MiB
/// size ceiling: the result is then the expression compiled from exactly
/// this text under exactly that ceiling, or `InvalidPattern`.
pub fn compile_safe_regex(pattern: &str) -> (r: Result<Pattern, ConfigError>)
    ensures
        !within_length_guard(pattern@) ==> r == Err::<Pattern, ConfigError>(
            ConfigError::PatternTooLong,
        ),
        within_length_guard(pattern@) ==> match r {
            Ok(p) => p@ == pattern@ && p.ceiling() == REGEX_SIZE_LIMIT,
            Err(e) => e == ConfigError::InvalidPattern,
        },
{
    if pattern.unicode_len() > MAX_REGEX_PATTERN_LENGTH {
        return Err(ConfigError::PatternTooLong);
    }
    Pattern::accept(build_pattern(pattern, REGEX_SIZE_LIMIT))
}

} // verus!
