use grm::github::{latest_release_index, proposed_asset_pattern, release_by_tag_url, release_label, releases_url};
use grm::types::ReleaseMetadata;

fn release(tag: &str, draft: bool, prerelease: bool) -> ReleaseMetadata {
    ReleaseMetadata {
        tag_name: tag.to_string(),
        target_commitish: "main".to_string(),
        name: None,
        draft,
        immutable: false,
        prerelease,
        created_at: String::new(),
        updated_at: String::new(),
        published_at: String::new(),
    }
}

#[test]
fn urls() {
    assert_eq!(releases_url("neovim/neovim"), "https://api.github.com/repos/neovim/neovim/releases");
    assert_eq!(
        release_by_tag_url("neovim/neovim", "v0.10.0"),
        "https://api.github.com/repos/neovim/neovim/releases/tags/v0.10.0"
    );
}

#[test]
fn latest_skips_drafts_and_prereleases() {
    let rs = vec![release("v3-draft", true, false), release("v3-rc1", false, true), release("v2", false, false)];
    assert_eq!(latest_release_index(&rs, false), Some(2));
    assert_eq!(latest_release_index(&rs, true), Some(1));
}

#[test]
fn latest_of_nothing_suitable() {
    let rs = vec![release("d", true, false), release("p", false, true)];
    assert_eq!(latest_release_index(&rs, false), None);
    assert_eq!(latest_release_index(&vec![], true), None);
}

#[test]
fn labels_mark_drafts_and_prereleases() {
    assert_eq!(release_label(&release("v1", false, false)), "v1");
    assert_eq!(release_label(&release("v1", true, false)), "v1 [DRAFT]");
    assert_eq!(release_label(&release("v1", false, true)), "v1 [PRERELEASE]");
    assert_eq!(release_label(&release("v1", true, true)), "v1 [DRAFT] [PRERELEASE]");
}

#[test]
fn proposed_pattern_replaces_tag() {
    assert_eq!(proposed_asset_pattern("nvim-v0.10.0-linux64.tar.gz", "v0.10.0"), "^nvim-(.*?)-linux64.tar.gz$");
    assert_eq!(proposed_asset_pattern("tool.zip", "v9"), "^tool.zip$");
    assert_eq!(proposed_asset_pattern("ab", ""), "^(.*?)a(.*?)b(.*?)$");
}
