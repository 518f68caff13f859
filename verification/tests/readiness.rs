use baklog_desktop::readiness::{classify_line, fold_byte, occurs, LineClass};

#[test]
fn server_ready_is_ready() {
    assert_eq!(classify_line(b"Server ready"), LineClass::Ready);
}

#[test]
fn address_in_use_is_port_conflict() {
    assert_eq!(classify_line(b"listen EADDRINUSE :::3000"), LineClass::PortConflict);
}

#[test]
fn unrelated_text_is_ignored() {
    assert_eq!(classify_line(b"GET /api/items 200 in 12ms"), LineClass::Ignored);
}

#[test]
fn readiness_marker_in_any_case() {
    assert_eq!(classify_line(b"   \xe2\x9c\x93 Ready in 312ms"), LineClass::Ready);
    assert_eq!(classify_line(b"READY"), LineClass::Ready);
    assert_eq!(classify_line(b"alReAdY"), LineClass::Ready);
    assert_eq!(classify_line(b"ready"), LineClass::Ready);
}

#[test]
fn conflict_phrase_is_port_conflict() {
    assert_eq!(
        classify_line(b"Error: bind: address already in use 0.0.0.0:3000"),
        LineClass::PortConflict
    );
}

#[test]
fn conflict_markers_are_spelled_exactly() {
    assert_eq!(classify_line(b"eaddrinuse"), LineClass::Ignored);
    assert_eq!(classify_line(b"EADDRINUS"), LineClass::Ignored);
    assert_eq!(classify_line(b"address in use"), LineClass::Ignored);
}

#[test]
fn the_conflict_phrase_wins_over_the_ready_inside_it() {
    assert_eq!(classify_line(b"address already in use"), LineClass::PortConflict);
    assert_eq!(classify_line(b"Address Already In Use"), LineClass::Ready);
}

#[test]
fn both_markers_make_a_conflict() {
    assert_eq!(
        classify_line(b"not ready: listen EADDRINUSE: address already in use :::3000"),
        LineClass::PortConflict
    );
}

#[test]
fn empty_and_near_miss_lines_are_ignored() {
    assert_eq!(classify_line(b""), LineClass::Ignored);
    assert_eq!(classify_line(b"read"), LineClass::Ignored);
    assert_eq!(classify_line(b"rea dy"), LineClass::Ignored);
    assert_eq!(classify_line(b"\xff\xfe\x00"), LineClass::Ignored);
}

#[test]
fn marker_survives_bytes_that_are_no_text() {
    assert_eq!(classify_line(b"\xff\xferEaDy\x80"), LineClass::Ready);
}

#[test]
fn occurs_finds_a_needle_anywhere() {
    assert!(occurs(b"abc", b"abc", false));
    assert!(occurs(b"abc", b"xxabc", false));
    assert!(occurs(b"abc", b"abcxx", false));
    assert!(occurs(b"abc", b"ababc", false));
    assert!(!occurs(b"abc", b"ab", false));
    assert!(!occurs(b"abc", b"abxc", false));
    assert!(!occurs(b"abc", b"", false));
}

#[test]
fn occurs_with_an_empty_needle() {
    assert!(occurs(b"", b"", false));
    assert!(occurs(b"", b"anything", true));
}

#[test]
fn occurs_folds_the_text_only() {
    assert!(occurs(b"abc", b"xABCx", true));
    assert!(!occurs(b"abc", b"xABCx", false));
    assert!(!occurs(b"ABC", b"xABCx", true));
    assert!(occurs(b"ABC", b"xABCx", false));
}

#[test]
fn fold_byte_turns_capitals_only() {
    assert_eq!(fold_byte(b'A'), b'a');
    assert_eq!(fold_byte(b'Z'), b'z');
    assert_eq!(fold_byte(b'a'), b'a');
    assert_eq!(fold_byte(b'@'), b'@');
    assert_eq!(fold_byte(b'['), b'[');
    assert_eq!(fold_byte(0), 0);
    assert_eq!(fold_byte(255), 255);
}
