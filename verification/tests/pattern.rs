use grm::pattern::{first_matching_asset, AssetPattern};
use grm::types::Asset;

fn asset(name: &str) -> Asset {
    Asset { name: name.to_string(), download_url: format!("https://x/{name}"), size: 1 }
}

#[test]
fn compile_accepts_valid_patterns_only() {
    assert!(AssetPattern::compile("^nvim-(.*?)-linux64\\.tar\\.gz$").is_some());
    assert!(AssetPattern::compile("(unclosed").is_none());
    assert_eq!(AssetPattern::compile("a+b").unwrap().as_str(), "a+b");
}

#[test]
fn is_match_searches_the_name() {
    let p = AssetPattern::compile("^nvim-(.*?)-linux64\\.tar\\.gz$").unwrap();
    assert!(p.is_match("nvim-v0.10.0-linux64.tar.gz"));
    assert!(!p.is_match("nvim-v0.10.0-macos.tar.gz"));
    let q = AssetPattern::compile("linux").unwrap();
    assert!(q.is_match("tool-linux-x64"));
    assert!(!q.is_match("linux".replace("linux", "LINUX").as_str()));
}

#[test]
fn first_matching_asset_picks_first() {
    let assets = vec![asset("tool-macos.zip"), asset("tool-linux.tar.gz"), asset("tool-linux.zip")];
    let p = AssetPattern::compile("linux").unwrap();
    assert_eq!(first_matching_asset(&p, &assets), Some(1));
    let none = AssetPattern::compile("windows").unwrap();
    assert_eq!(first_matching_asset(&none, &assets), None);
}
