//! Name patterns: regular expressions compiled once and applied to base names.

use regex::Regex;
use vstd::prelude::*;

verus! {

#[verifier::external_type_specification]
#[verifier::external_body]
pub struct ExRegex(regex::Regex);

#[verifier::external_type_specification]
#[verifier::external_body]
pub struct ExRegexError(regex::Error);

/// Whether the regex engine, with its default settings, accepts `pattern`
/// as a regular expression.
pub uninterp spec fn pattern_is_valid(pattern: Seq<char>) -> bool;

/// Whether the regular expression `pattern`, compiled with the engine's
/// default settings, finds a match anywhere in `text`.
pub uninterp spec fn pattern_accepts(pattern: Seq<char>, text: Seq<char>) -> bool;

/// Whether a compiled expression finds a match anywhere in `text`.
pub uninterp spec fn regex_matches(re: Regex, text: Seq<char>) -> bool;

/// `Regex::new`: compiles with the engine's default settings. Whether it
/// succeeds depends on the pattern text alone, and so does what the
/// compiled expression matches.
#[verifier::external_body]
pub(crate) fn compile_pattern(pattern: &str) -> (r: Result<Regex, regex::Error>)
    ensures
        r is Ok <==> pattern_is_valid(pattern@),
        r matches Ok(re) ==> forall|text: Seq<char>| #[trigger]
            regex_matches(re, text) == pattern_accepts(pattern@, text),
{
    Regex::new(pattern)
}

/// `Regex::is_match`: true exactly when the expression matches somewhere in
/// `text`; a function of the expression and the text alone.
#[verifier::external_body]
pub(crate) fn pattern_is_match(re: &Regex, text: &str) -> (b: bool)
    ensures
        b == regex_matches(*re, text@),
{
    re.is_match(text)
}

/// A name pattern ready for use: the pattern text with the expression
/// compiled from it.
pub struct NamePattern {
    source: String,
    re: Regex,
}

impl NamePattern {
    /// The compiled expression matches what the pattern text stands for.
    #[verifier::type_invariant]
    spec fn compiled_from_source(self) -> bool {
        forall|text: Seq<char>| #[trigger]
            regex_matches(self.re, text) == pattern_accepts(self.source@, text)
    }

    /// The pattern text.
    pub closed spec fn source(&self) -> Seq<char> {
        self.source@
    }

    /// Compiles `pattern`; `None` exactly when it is not a valid expression.
    pub fn compile(pattern: &str) -> (r: Option<NamePattern>)
        ensures
            r is Some <==> pattern_is_valid(pattern@),
            r matches Some(p) ==> p.source() == pattern@,
    {
        match compile_pattern(pattern) {
            Ok(re) => Some(NamePattern { source: pattern.to_owned(), re }),
            Err(_) => None,
        }
    }

    /// Applies the pattern to `name`.
    pub fn accepts(&self, name: &str) -> (b: bool)
        ensures
            b == pattern_accepts(self.source(), name@),
    {
        proof {
            use_type_invariant(self);
        }
        pattern_is_match(&self.re, name)
    }
}

} // verus!
