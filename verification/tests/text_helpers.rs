use backstitch_launcher::platform::Platform;
use backstitch_launcher::text::{
    chars_contain, chars_equal, chars_have, chars_match_at, chars_start_with, find_first,
    first_containing, sole_position, str_chars, str_contains, str_equal, str_starts_with,
    string_from_chars, string_from_range, trim_leading_char,
};

#[test]
fn characters_round_trip() {
    let cs = str_chars("héllo/wörld");
    assert_eq!(cs.len(), 11);
    assert_eq!(cs[1], 'é');
    assert_eq!(string_from_chars(&cs), "héllo/wörld");
    assert_eq!(string_from_range(&cs, 6, 11), "wörld");
    assert_eq!(string_from_range(&cs, 3, 3), "");
}

#[test]
fn searching_characters() {
    let cs = str_chars("a-b-c");
    assert!(chars_have(&cs, '-'));
    assert!(!chars_have(&cs, '/'));
    assert_eq!(find_first(&cs, '-'), Some(1));
    assert_eq!(find_first(&cs, 'x'), None);
    assert_eq!(sole_position(&cs, '-'), None);
    assert_eq!(sole_position(&cs, 'b'), Some(2));
    assert_eq!(sole_position(&cs, 'z'), None);
    assert!(chars_match_at(&cs, &str_chars("b-c"), 2));
    assert!(!chars_match_at(&cs, &str_chars("b-c"), 3));
    assert!(chars_contain(&cs, &str_chars("-c")));
    assert!(chars_contain(&cs, &str_chars("")));
    assert!(!chars_contain(&cs, &str_chars("c-")));
    assert!(chars_start_with(&cs, &str_chars("a-")));
    assert!(!chars_start_with(&cs, &str_chars("-")));
    assert!(chars_equal(&cs, &str_chars("a-b-c")));
    assert!(!chars_equal(&cs, &str_chars("a-b-")));
}

#[test]
fn searching_strings() {
    assert!(str_contains("<!-- BEGIN_RELEASE_METADATA", "BEGIN_RELEASE_METADATA"));
    assert!(!str_contains("BEGIN_RELEASE", "BEGIN_RELEASE_METADATA"));
    assert!(str_starts_with("v1.2.0", "v1"));
    assert!(!str_starts_with("2.v1", "v1"));
    assert!(str_equal("sha256", "sha256"));
    assert!(!str_equal("sha256", "SHA256"));
    assert_eq!(trim_leading_char("vvv1.0.0v", 'v'), "1.0.0v");
    assert_eq!(trim_leading_char("1.0.0", 'v'), "1.0.0");
    assert_eq!(trim_leading_char("vv", 'v'), "");
    let names = vec!["a.zip".to_owned(), "b-plugin.zip".to_owned(), "c-plugin.zip".to_owned()];
    assert_eq!(first_containing(&names, "plugin"), Some(1));
    assert_eq!(first_containing(&names, "none"), None);
}

#[test]
fn platforms() {
    assert!(Platform::MacOs.is_macos());
    assert!(!Platform::LinuxAarch64.is_macos());
}
