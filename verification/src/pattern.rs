//! Asset patterns: the regular expression a project keeps to find, among the
//! assets of a new release, the file it downloads on update.
use vstd::prelude::*;
use crate::asset_regex::{regex_finds, regex_is_match, regex_accepts, regex_new};
use crate::types::Asset;

pub use crate::asset_regex::AssetPattern;

verus! {

impl AssetPattern {
    /// Compiles `pattern`; none when it is not a valid regular expression.
    pub fn compile(pattern: &str) -> (r: Option<AssetPattern>)
        ensures
            r is Some == regex_accepts(pattern@),
            r matches Some(p) ==> p.text() == pattern@,
    {
        match regex_new(pattern) {
            Ok(p) => Some(p),
            Err(_) => None,
        }
    }

    /// Whether the pattern matches somewhere in `haystack`.
    pub fn is_match(&self, haystack: &str) -> (b: bool)
        ensures
            b == regex_finds(self.text(), haystack@),
    {
        regex_is_match(self, haystack)
    }
}

/// The position of the first asset whose name the pattern `pattern` matches.
pub fn first_matching_asset(pattern: &AssetPattern, assets: &Vec<Asset>) -> (r: Option<usize>)
    ensures
        match r {
            Some(i) => i < assets@.len() && regex_finds(pattern.text(), assets@[i as int].name@)
                && forall|j: int|
                0 <= j < i ==> !regex_finds(pattern.text(), #[trigger] assets@[j].name@),
            None => forall|j: int|
                0 <= j < assets@.len() ==> !regex_finds(pattern.text(), #[trigger] assets@[j].name@),
        },
{
    let n = assets.len();
    for i in 0..n
        invariant
            n == assets@.len(),
            forall|j: int|
                0 <= j < i ==> !regex_finds(pattern.text(), #[trigger] assets@[j].name@),
    {
        if pattern.is_match(assets[i].name.as_str()) {
            return Some(i);
        }
    }
    None
}

} // verus!
