//! A compiled asset pattern kept together with the text it was compiled from.
//! Only the wrapper around `regex::Regex::new` builds one, so the expression a
//! pattern matches with is always the one compiled from its own text.
use vstd::prelude::*;

verus! {

#[verifier::external_type_specification]
#[verifier::external_body]
pub struct ExRegex(regex::Regex);

#[verifier::external_type_specification]
#[verifier::external_body]
pub struct ExRegexError(regex::Error);

/// Whether the `regex` crate accepts `pattern` as a regular expression (with its
/// default limits).
pub uninterp spec fn regex_accepts(pattern: Seq<char>) -> bool;

/// Whether the regular expression `pattern` matches somewhere in `haystack`.
pub uninterp spec fn regex_finds(pattern: Seq<char>, haystack: Seq<char>) -> bool;

/// A compiled asset pattern and the text it was compiled from.
pub struct AssetPattern {
    source: String,
    compiled: regex::Regex,
}

impl AssetPattern {
    /// The text of the pattern.
    pub closed spec fn text(&self) -> Seq<char> {
        self.source@
    }

    /// The text of the pattern.
    pub fn as_str(&self) -> (s: &str)
        ensures
            s@ == self.text(),
    {
        self.source.as_str()
    }
}

/// `regex::Regex::new`: compiles `pattern`, and keeps the compiled expression
/// with a copy of `pattern`. The contract claims that the outcome is a function
/// of the pattern (named `regex_accepts`) and that the kept text is `pattern`;
/// the crate's syntax is not restated.
#[verifier::external_body]
pub(crate) fn regex_new(pattern: &str) -> (r: Result<AssetPattern, regex::Error>)
    ensures
        r is Ok == regex_accepts(pattern@),
        r matches Ok(p) ==> p.text() == pattern@,
{
    match regex::Regex::new(pattern) {
        Ok(compiled) => Ok(AssetPattern { source: pattern.to_string(), compiled }),
        Err(e) => Err(e),
    }
}

/// `regex::Regex::is_match`: whether the compiled expression of `pattern`
/// matches somewhere in `haystack`. The contract claims that the answer is a
/// function of the pattern's text and the haystack (named `regex_finds`); it
/// rests on `pattern.compiled` having been compiled from `pattern.source`, which
/// holds because `regex_new` above is the only code that builds an
/// `AssetPattern`.
#[verifier::external_body]
pub(crate) fn regex_is_match(pattern: &AssetPattern, haystack: &str) -> (b: bool)
    ensures
        b == regex_finds(pattern.text(), haystack@),
{
    pattern.compiled.is_match(haystack)
}

} // verus!
