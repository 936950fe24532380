//! Compiled patterns, and the two operations of the `regex` crate that the
//! rest of the library relies on.

use vstd::prelude::*;

verus! {

#[verifier::external_type_specification]
#[verifier::external_body]
pub struct ExRegex(regex::Regex);

#[verifier::external_type_specification]
#[verifier::external_body]
pub struct ExRegexError(regex::Error);

/// Whether the `regex` crate accepts `pattern` as a valid expression within
/// its default size limit.
pub uninterp spec fn regex_compiles(pattern: Seq<char>) -> bool;

/// Whether the expression `pattern` matches somewhere in `haystack`.
pub uninterp spec fn regex_finds_match(pattern: Seq<char>, haystack: Seq<char>) -> bool;

/// A pattern together with the expression compiled from it.
///
/// Only [`compile`] builds a value of this type, so the compiled expression
/// is always the one written in `pattern`.
pub struct Matcher {
    regex: regex::Regex,
    pattern: &'static str,
}

impl View for Matcher {
    type V = Seq<char>;

    /// The pattern text that this matcher was compiled from.
    closed spec fn view(&self) -> Seq<char> {
        self.pattern@
    }
}

impl Matcher {
    /// The pattern text that this matcher was compiled from.
    pub fn pattern(&self) -> (r: &'static str)
        ensures
            r@ == self@,
    {
        self.pattern
    }
}

/// Relies on `regex::Regex::new`: it fails exactly on a pattern that is not a
/// valid expression or whose compiled form exceeds the default size limit,
/// and otherwise yields the expression written in `pattern`.
#[verifier::external_body]
pub(crate) fn compile(pattern: &'static str) -> (r: Result<Matcher, regex::Error>)
    ensures
        r is Ok <==> regex_compiles(pattern@),
        r matches Ok(m) ==> m@ == pattern@,
{
    match regex::Regex::new(pattern) {
        Ok(regex) => Ok(Matcher { regex, pattern }),
        Err(e) => Err(e),
    }
}

/// Relies on `regex::Regex::is_match`: whether the compiled expression
/// matches anywhere in `haystack`.
#[verifier::external_body]
pub(crate) fn finds_match(m: &Matcher, haystack: &str) -> (r: bool)
    ensures
        r == regex_finds_match(m@, haystack@),
{
    m.regex.is_match(haystack)
}

} // verus!
