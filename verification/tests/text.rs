use stardb_router::text::str_starts_with;

#[test]
fn empty_prefix_starts_everything() {
    assert!(str_starts_with("", ""));
    assert!(str_starts_with("/api", ""));
}

#[test]
fn prefix_longer_than_string_never_matches() {
    assert!(!str_starts_with("/ap", "/api"));
    assert!(!str_starts_with("", "/"));
}

#[test]
fn exact_match_counts_as_prefix() {
    assert!(str_starts_with("/api", "/api"));
}

#[test]
fn mismatch_in_the_middle_is_rejected() {
    assert!(!str_starts_with("/apx/users", "/api"));
    assert!(!str_starts_with("/wuwa/men", "/wuwa/map"));
}

#[test]
fn non_ascii_paths_compare_by_character() {
    assert!(str_starts_with("/wé/è", "/wé"));
    assert!(!str_starts_with("/wé/è", "/wá"));
}
