use grm::text::{contains_char, contains_text, replace_all, starts_with, text_after_last, text_before};

#[test]
fn text_before_stops_at_first_separator() {
    assert_eq!(text_before("2024-05-01T10:20:30+00:00", 'T'), "2024-05-01");
    assert_eq!(text_before("a/b/c", '/'), "a");
}

#[test]
fn text_before_without_separator_is_whole_text() {
    assert_eq!(text_before("no-date", 'T'), "no-date");
    assert_eq!(text_before("", 'T'), "");
    assert_eq!(text_before("Tstart", 'T'), "");
}

#[test]
fn text_after_last_takes_final_segment() {
    assert_eq!(text_after_last("neovim/neovim", '/'), "neovim");
    assert_eq!(text_after_last("a/b/c", '/'), "c");
    assert_eq!(text_after_last("plain", '/'), "plain");
    assert_eq!(text_after_last("trailing/", '/'), "");
}

#[test]
fn contains_char_finds_characters() {
    assert!(contains_char("owner/repo", '/'));
    assert!(!contains_char("repo", '/'));
    assert!(!contains_char("", '/'));
}

#[test]
fn starts_with_checks_prefix() {
    assert!(starts_with("ERROR: boom", "ERROR:"));
    assert!(!starts_with("ERR", "ERROR:"));
    assert!(starts_with("anything", ""));
    assert!(!starts_with("xERROR:", "ERROR:"));
}

#[test]
fn contains_text_searches_everywhere() {
    assert!(contains_text("--- FAILED ---", "FAILED"));
    assert!(contains_text("abc", "c"));
    assert!(contains_text("abc", ""));
    assert!(!contains_text("abc", "abcd"));
    assert!(!contains_text("Succes", "Success"));
}

#[test]
fn replace_all_matches_std_replace() {
    let cases = [
        ("tool-v1.2.3-linux.tar.gz", "v1.2.3", "(.*?)"),
        ("aaaa", "aa", "b"),
        ("aaa", "aa", "b"),
        ("abc", "", "-"),
        ("", "", "-"),
        ("", "x", "y"),
        ("v1v1v1", "v1", ""),
        ("nothing here", "zzz", "q"),
        ("überstraße", "ß", "ss"),
    ];
    for (s, from, to) in cases {
        assert_eq!(replace_all(s, from, to), s.replace(from, to), "{s:?} {from:?} {to:?}");
    }
}

#[test]
fn replace_absent_fragment_keeps_text() {
    assert_eq!(replace_all("grm-linux-x86_64", "v9", "(.*?)"), "grm-linux-x86_64");
}

#[test]
fn replace_by_itself_keeps_text() {
    assert_eq!(replace_all("v1-v1-x", "v1", "v1"), "v1-v1-x");
}
