use weaver::strutil::{str_contains, str_contains_ci, str_eq, to_upper};

#[test]
fn string_equality_by_contents() {
    assert!(str_eq("abc", "abc"));
    assert!(!str_eq("abc", "abd"));
    assert!(!str_eq("abc", "ab"));
    assert!(str_eq("", ""));
}

#[test]
fn substring_search() {
    assert!(str_contains("application/json;charset=UTF-8", "application/json"));
    assert!(!str_contains("application/JSON", "application/json"));
    assert!(str_contains("anything", ""));
}

#[test]
fn substring_search_ignores_ascii_case() {
    assert!(str_contains_ci("Content-Type: text/plain", "content-type"));
    assert!(str_contains_ci("CONTENT-TYPE", "content-type"));
    assert!(!str_contains_ci("Content Type", "content-type"));
}

#[test]
fn ascii_upper_casing() {
    assert_eq!(to_upper("post"), "POST");
    assert_eq!(to_upper("Patch-2!"), "PATCH-2!");
}
