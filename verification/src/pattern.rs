//! Regular-expression matching against display device names.
//!
//! The matching itself is done by the `regex` crate; its behaviour is
//! captured here by named results that the rest of the crate's contracts
//! speak of. Matching tests whether the pattern matches anywhere in the
//! text, with no implicit anchoring, and is case-sensitive unless the
//! pattern itself asks otherwise (for example with an inline `(?i)` flag).

use vstd::prelude::*;

verus! {

#[verifier::external_type_specification]
#[verifier::external_body]
pub struct ExRegex(regex::Regex);

/// Whether `pattern` is valid regular-expression syntax (within the regex
/// crate's default size limit): the condition under which compilation
/// succeeds.
pub uninterp spec fn pattern_ok(pattern: Seq<char>) -> bool;

/// The pattern string a compiled regex was built from; `regex::Regex`
/// carries it, and `regex::Regex::as_str` returns it.
pub uninterp spec fn regex_source(re: regex::Regex) -> Seq<char>;

/// Whether `pattern` matches anywhere in `text`. A function of the two
/// strings alone: the regex crate's matching is deterministic.
pub uninterp spec fn regex_match(pattern: Seq<char>, text: Seq<char>) -> bool;

/// Relies on regex::Regex::new: it returns Ok exactly when the pattern is
/// valid syntax within the default size limit, a property of the pattern
/// string alone, and the compiled value keeps the pattern string it was
/// built from.
#[verifier::external_body]
pub(crate) fn compile_pattern(pattern: &str) -> (r: Option<regex::Regex>)
    ensures
        r is Some <==> pattern_ok(pattern@),
        r is Some ==> regex_source(r->0) == pattern@,
{
    regex::Regex::new(pattern).ok()
}

/// Relies on regex::Regex::is_match: true if and only if the regex matches
/// anywhere in the text, an answer that depends only on the pattern the
/// regex was compiled from and on the text.
#[verifier::external_body]
pub(crate) fn pattern_is_match(re: &regex::Regex, text: &str) -> (b: bool)
    ensures
        b == regex_match(regex_source(*re), text@),
{
    re.is_match(text)
}

} // verus!
