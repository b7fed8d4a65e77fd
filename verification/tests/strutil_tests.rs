use kiosk_hub::strutil::{
    contains_char, find_sub, join_spaces, split_char, split_spaces, str_contains, str_is,
    str_starts_with,
};

#[test]
fn equality_and_prefix() {
    assert!(str_is("wlan0", "wlan0"));
    assert!(!str_is("wlan0", "wlan1"));
    assert!(str_starts_with("ssid=homenet", "ssid="));
    assert!(!str_starts_with("bssid=x", "ssid="));
    assert!(str_starts_with("abc", ""));
    assert!(!str_starts_with("ab", "abc"));
}

#[test]
fn first_occurrence_search() {
    assert_eq!(find_sub("abcabc", "bc"), Some(1));
    assert_eq!(find_sub("abcabc", "cab"), Some(2));
    assert_eq!(find_sub("abc", "x"), None);
    assert_eq!(find_sub("abc", ""), Some(0));
    assert!(str_contains("System Listing... Done", "Listing..."));
    assert!(!str_contains("Done", "Listing..."));
    assert!(contains_char("bl_power 1", '1'));
    assert!(!contains_char("0", '1'));
}

#[test]
fn splitting_on_a_character() {
    assert_eq!(split_char("a=b=c", '='), vec!["a", "b", "c"]);
    assert_eq!(split_char("ssid=", '='), vec!["ssid", ""]);
    assert_eq!(split_char("", '='), vec![""]);
    assert_eq!(split_char("\n\n", '\n'), vec!["", "", ""]);
}

#[test]
fn splitting_on_whitespace_drops_empties() {
    assert_eq!(split_spaces("  a \t bb  c "), vec!["a", "bb", "c"]);
    assert_eq!(split_spaces(""), Vec::<String>::new());
    assert_eq!(split_spaces("   "), Vec::<String>::new());
    assert_eq!(split_spaces("one"), vec!["one"]);
}

#[test]
fn joining_from_an_index() {
    let parts: Vec<String> =
        ["a", "b", "cafe", "lounge", "wifi"].iter().map(|s| s.to_string()).collect();
    assert_eq!(join_spaces(&parts, 2), "cafe lounge wifi");
    assert_eq!(join_spaces(&parts, 4), "wifi");
    assert_eq!(join_spaces(&parts, 5), "");
}
