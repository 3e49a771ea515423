use lofi_player::text::after_prefix;
use lofi_player::text::join_text;
use lofi_player::text::same_text;
use lofi_player::text::starts_with;

#[test]
fn starts_with_finds_a_prefix() {
    assert!(starts_with("trackDir:/music", "trackDir:"));
    assert!(starts_with("trackDir:", "trackDir:"));
    assert!(starts_with("anything", ""));
    assert!(starts_with("", ""));
}

#[test]
fn starts_with_rejects_what_is_no_prefix() {
    assert!(!starts_with("trackDir", "trackDir:"));
    assert!(!starts_with("TrackDir:/music", "trackDir:"));
    assert!(!starts_with("", "x"));
    assert!(!starts_with(" trackDir:", "trackDir:"));
}

#[test]
fn starts_with_counts_characters_not_bytes() {
    assert!(starts_with("été:chaud", "été:"));
    assert!(!starts_with("ete:chaud", "été:"));
}

#[test]
fn same_text_compares_all_characters() {
    assert!(same_text("PLAY", "PLAY"));
    assert!(same_text("", ""));
    assert!(!same_text("PLAY", "PLAX"));
    assert!(!same_text("PLAY", "PLAYS"));
    assert!(!same_text("PLAYS", "PLAY"));
    assert!(!same_text("play", "PLAY"));
}

#[test]
fn after_prefix_drops_leading_characters() {
    assert_eq!(after_prefix("trackDir:/music", 9), "/music");
    assert_eq!(after_prefix("abc", 0), "abc");
    assert_eq!(after_prefix("abc", 3), "");
    assert_eq!(after_prefix("été:chaud", 4), "chaud");
}

#[test]
fn after_prefix_of_a_short_text_is_empty() {
    assert_eq!(after_prefix("abc", 4), "");
    assert_eq!(after_prefix("", 1), "");
}

#[test]
fn join_text_joins_in_order() {
    assert_eq!(join_text("track", "Dir:"), "trackDir:");
    assert_eq!(join_text("", "x"), "x");
    assert_eq!(join_text("x", ""), "x");
}
