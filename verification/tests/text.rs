use gittig::text::{bytes_eq, starts_with, str_eq};

#[test]
fn equal_bytes_are_equal() {
    assert!(bytes_eq(b"", b""));
    assert!(bytes_eq(b"abc", b"abc"));
}

#[test]
fn bytes_of_other_length_or_content_differ() {
    assert!(!bytes_eq(b"abc", b"abd"));
    assert!(!bytes_eq(b"abc", b"ab"));
    assert!(!bytes_eq(b"", b"a"));
    assert!(!bytes_eq(b"xbc", b"abc"));
}

#[test]
fn prefixes_are_found() {
    assert!(starts_with(b"Basic abc", b"Basic "));
    assert!(starts_with(b"Basic ", b"Basic "));
    assert!(starts_with(b"anything", b""));
    assert!(starts_with(b"", b""));
}

#[test]
fn what_is_no_prefix_is_not_found() {
    assert!(!starts_with(b"Basic", b"Basic "));
    assert!(!starts_with(b"basic abc", b"Basic "));
    assert!(!starts_with(b" Basic abc", b"Basic "));
    assert!(!starts_with(b"", b"B"));
}

#[test]
fn texts_compare_by_their_characters() {
    assert!(str_eq("", ""));
    assert!(str_eq("git-upload-pack", "git-upload-pack"));
    assert!(str_eq("zoë", "zoë"));
    assert!(!str_eq("zoë", "zoe"));
    assert!(!str_eq("a", "A"));
    assert!(!str_eq("a", "ab"));
}
