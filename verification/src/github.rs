//! What the program asks GitHub, and how it chooses among the releases and
//! assets that come back.
use vstd::prelude::*;
use vstd::string::*;
use crate::text::{concat3, law_replace_single, occurs_at, replace_all, replaced};
use crate::types::ReleaseMetadata;

verus! {

broadcast use vstd::string::group_string_axioms;

/// The address of the release list of `repo_name` (`owner/repo`).
pub open spec fn releases_url_text(repo_name: Seq<char>) -> Seq<char> {
    "https://api.github.com/repos/"@ + repo_name + "/releases"@
}

/// The address of the release of `repo_name` tagged `tag`.
pub open spec fn release_by_tag_url_text(repo_name: Seq<char>, tag: Seq<char>) -> Seq<char> {
    "https://api.github.com/repos/"@ + repo_name + "/releases/tags/"@ + tag
}

/// The address of the release list of `repo_name`.
pub fn releases_url(repo_name: &str) -> (r: String)
    ensures
        r@ == releases_url_text(repo_name@),
{
    concat3("https://api.github.com/repos/", repo_name, "/releases")
}

/// The address of the release of `repo_name` tagged `tag`, which lists its assets.
pub fn release_by_tag_url(repo_name: &str, tag: &str) -> (r: String)
    ensures
        r@ == release_by_tag_url_text(repo_name@, tag@),
{
    let mut r = concat3("https://api.github.com/repos/", repo_name, "/releases/tags/");
    r.append(tag);
    r
}

/// A release an update may move to: never a draft, and a pre-release only when
/// the project allows them.
pub open spec fn is_update_candidate(r: ReleaseMetadata, allow_prerelease: bool) -> bool {
    if allow_prerelease {
        !r.draft
    } else {
        !r.draft && !r.prerelease
    }
}

/// `r` is the release an update moves to: the first candidate in the order
/// GitHub lists them (newest first), or none when there is no candidate.
pub open spec fn is_latest_pick(releases: Seq<ReleaseMetadata>, allow_prerelease: bool, r: Option<usize>) -> bool {
    match r {
        Some(i) => i < releases.len() && is_update_candidate(releases[i as int], allow_prerelease)
            && forall|j: int|
            0 <= j < i ==> !is_update_candidate(#[trigger] releases[j], allow_prerelease),
        None => forall|j: int|
            0 <= j < releases.len() ==> !is_update_candidate(#[trigger] releases[j], allow_prerelease),
    }
}

/// The position of the release an update moves to: the first candidate in the
/// order GitHub lists them (newest first), or none when there is no candidate.
pub fn latest_release_index(releases: &Vec<ReleaseMetadata>, allow_prerelease: bool) -> (r:
    Option<usize>)
    ensures
        is_latest_pick(releases@, allow_prerelease, r),
{
    let n = releases.len();
    for i in 0..n
        invariant
            n == releases@.len(),
            forall|j: int|
                0 <= j < i ==> !is_update_candidate(#[trigger] releases@[j], allow_prerelease),
    {
        let r = &releases[i];
        let ok = if allow_prerelease {
            !r.draft
        } else {
            !r.draft && !r.prerelease
        };
        if ok {
            return Some(i);
        }
    }
    None
}

/// The label of a release in the version list: its tag, marked ` [DRAFT]` and
/// ` [PRERELEASE]` where they apply.
pub open spec fn release_label_text(r: ReleaseMetadata) -> Seq<char> {
    r.tag_name@ + (if r.draft {
        " [DRAFT]"@
    } else {
        Seq::empty()
    }) + (if r.prerelease {
        " [PRERELEASE]"@
    } else {
        Seq::empty()
    })
}

/// The label of a release in the version list.
pub fn release_label(r: &ReleaseMetadata) -> (s: String)
    ensures
        s@ == release_label_text(*r),
{
    let mut s = r.tag_name.clone();
    let ghost tag = s@;
    if r.draft {
        s.append(" [DRAFT]");
    } else {
        assert(s@ =~= tag + Seq::<char>::empty());
    }
    let ghost mid = s@;
    if r.prerelease {
        s.append(" [PRERELEASE]");
    } else {
        assert(s@ =~= mid + Seq::<char>::empty());
    }
    s
}

/// The asset pattern proposed when an asset is chosen by hand: the asset's name
/// with the release tag turned into a lazy wildcard, anchored at both ends.
pub open spec fn proposed_pattern_text(asset_name: Seq<char>, tag: Seq<char>) -> Seq<char> {
    "^"@ + replaced(asset_name, tag, "(.*?)"@) + "$"@
}

/// The asset pattern proposed for `asset_name` of the release tagged `tag`.
pub fn proposed_asset_pattern(asset_name: &str, tag: &str) -> (p: String)
    ensures
        p@ == proposed_pattern_text(asset_name@, tag@),
{
    let body = replace_all(asset_name, tag, "(.*?)");
    concat3("^", body.as_str(), "$")
}

/// An update moves to the first release GitHub lists that is not a draft and,
/// unless the project allows pre-releases, not a pre-release; when pre-releases
/// are allowed every release that is not a draft counts. With no such release it
/// moves nowhere.
pub proof fn law_latest_release_is_first_allowed(
    releases: Seq<ReleaseMetadata>,
    allow_prerelease: bool,
    r: Option<usize>,
)
    requires
        is_latest_pick(releases, allow_prerelease, r),
    ensures
        match r {
            Some(i) => {
                &&& i < releases.len()
                &&& !releases[i as int].draft
                &&& allow_prerelease || !releases[i as int].prerelease
                &&& forall|j: int|
                    0 <= j < i ==> (#[trigger] releases[j]).draft || (!allow_prerelease
                        && releases[j].prerelease)
            },
            None => forall|j: int|
                0 <= j < releases.len() ==> (#[trigger] releases[j]).draft || (!allow_prerelease
                    && releases[j].prerelease),
        },
{
    match r {
        Some(i) => {
            assert forall|j: int| 0 <= j < i implies (#[trigger] releases[j]).draft || (
            !allow_prerelease && releases[j].prerelease) by {
                assert(!is_update_candidate(releases[j], allow_prerelease));
            }
        },
        None => {
            assert forall|j: int| 0 <= j < releases.len() implies (#[trigger] releases[j]).draft
                || (!allow_prerelease && releases[j].prerelease) by {
                assert(!is_update_candidate(releases[j], allow_prerelease));
            }
        },
    }
}

/// The whole tag becomes the wildcard: when the asset's name is `prefix`, the
/// tag, then `suffix`, and the tag occurs in the name only there, the proposed
/// pattern is `^`, `prefix`, `(.*?)`, `suffix`, `$`.
pub proof fn law_proposed_pattern_wildcards_tag(prefix: Seq<char>, tag: Seq<char>, suffix: Seq<char>)
    requires
        tag.len() > 0,
        forall|j: int| occurs_at(prefix + tag + suffix, tag, j) ==> j == prefix.len(),
    ensures
        proposed_pattern_text(prefix + tag + suffix, tag) == "^"@ + prefix + "(.*?)"@ + suffix
            + "$"@,
{
    law_replace_single(prefix, tag, suffix, "(.*?)"@);
}

} // verus!
