//! Search patterns. A query is compiled into a regular expression of the
//! `regex` crate; what the crate computes is taken on trust and referred to
//! by name, and everything built on it is proved against those names.

use regex::Regex;
use vstd::prelude::*;

verus! {

/// `regex::Regex`, a compiled regular expression. Nothing of its inside is
/// known here; it is known by its language alone.
#[verifier::external_type_specification]
#[verifier::external_body]
pub struct ExRegex(regex::Regex);

/// `regex::Error`, the reason why a pattern was refused. It is carried from
/// the build to `compile`, which reads nothing from it.
#[verifier::external_type_specification]
#[verifier::external_body]
pub struct ExRegexError(regex::Error);

/// The haystacks in which a compiled expression finds a match somewhere:
/// what `Regex::is_match` answers, taken over all haystacks.
pub uninterp spec fn regex_language(re: Regex) -> Set<Seq<char>>;

/// What `RegexBuilder::build` makes of a pattern text: the language of the
/// compiled expression, or `None` where the pattern is refused.
pub uninterp spec fn pattern_language(pattern: Seq<char>, case_insensitive: bool) -> Option<Set<Seq<char>>>;

/// `Regex::is_match` reports whether the expression matches anywhere in the
/// haystack. The answer depends on the expression and the haystack alone; it
/// is read here as membership of the haystack in the expression's language.
pub assume_specification[ Regex::is_match ](re: &Regex, haystack: &str) -> (found: bool)
    ensures
        found == regex_language(*re).contains(haystack@),
;

/// `RegexBuilder::new(pattern)`, with `RegexBuilder::case_insensitive` set as
/// asked, then `RegexBuilder::build`. Trusted: whether a pattern compiles,
/// and which haystacks the compiled expression matches, depends only on the
/// pattern text and the flag; and the empty pattern always compiles, to an
/// expression that matches in every haystack (at its start).
#[verifier::external_body]
fn build_regex(pattern: &str, case_insensitive: bool) -> (built: Result<Regex, regex::Error>)
    ensures
        match built {
            Ok(re) => pattern_language(pattern@, case_insensitive) == Some(regex_language(re)),
            Err(_) => pattern_language(pattern@, case_insensitive) is None,
        },
        pattern@.len() == 0 ==> built is Ok && regex_language(built->Ok_0) == Set::<Seq<char>>::full(),
{
    regex::RegexBuilder::new(pattern).case_insensitive(case_insensitive).build()
}

/// A query text that cannot be compiled into a pattern.
#[derive(Clone, Copy, Debug, PartialEq, Eq)]
pub enum QueryError {
    /// The text is not a valid pattern, or compiles to one that is too large.
    InvalidPattern,
}

/// The language of a query: the texts that it matches, or `None` for a
/// query that does not compile. The empty query matches every text; any
/// other query is a pattern, matched without regard to case.
pub open spec fn query_language(query: Seq<char>) -> Option<Set<Seq<char>>> {
    if query.len() == 0 {
        Some(Set::full())
    } else {
        pattern_language(query, true)
    }
}

/// Compiles a query into a pattern.
///
/// Succeeds exactly on the queries that have a language, and the pattern
/// returned has that language.
pub fn compile(search_text: &str) -> (compiled: Result<Regex, QueryError>)
    ensures
        match compiled {
            Ok(re) => query_language(search_text@) == Some(regex_language(re)),
            Err(e) => e == QueryError::InvalidPattern && query_language(search_text@) is None,
        },
{
    match build_regex(search_text, true) {
        Ok(re) => Ok(re),
        Err(_) => Err(QueryError::InvalidPattern),
    }
}

} // verus!
