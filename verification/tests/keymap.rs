use rustree::keymap::{is_prefix_of, map_key, relative_key_of, trim_trailing_slashes};

#[test]
fn maps_key_under_prefixes() {
    let (rel, dst) = map_key("photos/", "backup", "photos/2020/cat.jpg");
    assert_eq!(rel, "2020/cat.jpg");
    assert_eq!(dst, "backup/2020/cat.jpg");
}

#[test]
fn strips_single_leading_slash_after_prefix() {
    let (rel, dst) = map_key("photos", "backup", "photos/2020/cat.jpg");
    assert_eq!(rel, "2020/cat.jpg");
    assert_eq!(dst, "backup/2020/cat.jpg");
}

#[test]
fn trims_trailing_slashes_of_destination_prefix() {
    let (rel, dst) = map_key("a/", "mirror///", "a/b.txt");
    assert_eq!(rel, "b.txt");
    assert_eq!(dst, "mirror/b.txt");
}

#[test]
fn empty_source_prefix_copies_full_key() {
    let (rel, dst) = map_key("", "archive", "deep/ly/nested.bin");
    assert_eq!(rel, "deep/ly/nested.bin");
    assert_eq!(dst, "archive/deep/ly/nested.bin");
}

#[test]
fn key_not_under_prefix_is_kept_unchanged() {
    let (rel, dst) = map_key("photos/", "backup", "videos/clip.mp4");
    assert_eq!(rel, "videos/clip.mp4");
    assert_eq!(dst, "backup/videos/clip.mp4");
}

#[test]
fn directory_marker_maps_to_trimmed_prefix_and_slash() {
    let (rel, dst) = map_key("photos/", "backup/", "photos/");
    assert_eq!(rel, "");
    assert_eq!(dst, "backup/");
}

#[test]
fn repeated_inner_slashes_are_kept() {
    let (rel, dst) = map_key("a", "d", "a//b//c");
    assert_eq!(rel, "/b//c");
    assert_eq!(dst, "d//b//c");
}

#[test]
fn relative_key_of_strips_once() {
    assert_eq!(relative_key_of("p/p/", "p/p/x"), "x");
    assert_eq!(relative_key_of("q", "q"), "");
    assert_eq!(relative_key_of("", "/absolute"), "absolute");
}

#[test]
fn trim_trailing_slashes_edge_cases() {
    assert_eq!(trim_trailing_slashes(""), "");
    assert_eq!(trim_trailing_slashes("///"), "");
    assert_eq!(trim_trailing_slashes("a/b"), "a/b");
    assert_eq!(trim_trailing_slashes("a/b///"), "a/b");
}

#[test]
fn prefix_test_is_exact() {
    assert!(is_prefix_of("", "anything"));
    assert!(is_prefix_of("ab", "abc"));
    assert!(!is_prefix_of("abc", "ab"));
    assert!(!is_prefix_of("ax", "abc"));
}
