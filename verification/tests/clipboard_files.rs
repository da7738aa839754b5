use std::path::PathBuf;
use wiredesk_client::clipboard_files::{
    absolute, check_file_url, hex_nibble, parse_file_url, percent_decode, poll_file_url,
    set_file_url, FileClipboardError, Pasteboard,
};

fn parsed(url: &str) -> Option<PathBuf> {
    parse_file_url(url).map(PathBuf::from)
}

#[test]
fn parse_file_url_simple() {
    let p = parsed("file:///Users/alice/foo.pdf").expect("parse");
    assert_eq!(p, PathBuf::from("/Users/alice/foo.pdf"));
}

#[test]
fn parse_file_url_with_localhost_host() {
    let p = parsed("file://localhost/tmp/foo.txt").expect("parse");
    assert_eq!(p, PathBuf::from("/tmp/foo.txt"));
}

#[test]
fn parse_file_url_with_space_encoded() {
    let p = parsed("file:///Users/alice/My%20Docs/foo.pdf").expect("parse");
    assert_eq!(p, PathBuf::from("/Users/alice/My Docs/foo.pdf"));
}

#[test]
fn parse_file_url_unicode_percent_encoded() {
    let p = parsed("file:///tmp/%D0%BF%D1%80%D0%B8%D0%B2%D0%B5%D1%82.txt").expect("parse");
    assert_eq!(p, PathBuf::from("/tmp/привет.txt"));
}

#[test]
fn parse_file_url_rejects_http() {
    assert!(parse_file_url("https://example.com/foo").is_none());
    assert!(parse_file_url("data:text/plain,hello").is_none());
}

#[test]
fn parse_file_url_rejects_empty_path() {
    assert!(parse_file_url("file://").is_none());
}

#[test]
fn parse_file_url_rejects_relative_path() {
    assert!(parse_file_url("file:relative/path").is_none());
    assert!(parse_file_url("file:foo.pdf").is_none());
    assert!(
        parse_file_url("file://localhostrelative/path").is_none(),
        "localhost-prefix collision still requires absolute path after host strip"
    );
}

#[test]
fn parse_file_url_accepts_the_short_scheme() {
    assert_eq!(parse_file_url("file:/tmp/a"), Some("/tmp/a".to_string()));
    assert_eq!(parse_file_url("file:///"), Some("/".to_string()));
    assert_eq!(parse_file_url("file://%2Ftmp"), Some("/tmp".to_string()));
}

#[test]
fn percent_decode_passthrough_invalid_hex() {
    assert_eq!(percent_decode("foo%ZZbar"), "foo%ZZbar");
}

#[test]
fn percent_decode_handles_truncated_tail() {
    assert_eq!(percent_decode("foo%"), "foo%");
    assert_eq!(percent_decode("foo%2"), "foo%2");
}

#[test]
fn percent_decode_reads_both_cases_and_replaces_what_is_not_utf8() {
    assert_eq!(percent_decode("%d0%BF"), "п");
    assert_eq!(percent_decode("a%FFb"), "a\u{FFFD}b");
    assert_eq!(percent_decode("foo%20"), "foo ");
    assert_eq!(percent_decode("%2520"), "%20");
}

#[test]
fn hex_digits_have_their_value() {
    assert_eq!(hex_nibble(b'0'), Some(0));
    assert_eq!(hex_nibble(b'9'), Some(9));
    assert_eq!(hex_nibble(b'a'), Some(10));
    assert_eq!(hex_nibble(b'F'), Some(15));
    assert_eq!(hex_nibble(b'g'), None);
}

#[test]
fn poll_change_count_increments_dedup() {
    let mut count: i64 = 0;
    let _ = poll_file_url(&mut count, None);
    assert!(count >= 0);
    let mut count2 = count;
    let _ = poll_file_url(&mut count2, None);
    assert!(count2 >= count);
}

#[test]
fn poll_takes_one_file_once() {
    let board = |change_count: i64, items: usize, url: Option<&str>| Pasteboard {
        change_count,
        items,
        url: url.map(|u| u.to_string()),
    };
    let mut seen: i64 = 0;
    let b = board(3, 1, Some("file:///tmp/a.txt"));
    assert_eq!(poll_file_url(&mut seen, Some(&b)), Some("/tmp/a.txt".to_string()));
    assert_eq!(seen, 3);
    assert_eq!(poll_file_url(&mut seen, Some(&b)), None, "nothing has changed");
    let many = board(4, 2, Some("file:///tmp/a.txt"));
    assert_eq!(poll_file_url(&mut seen, Some(&many)), None);
    assert_eq!(seen, 4, "the change is noted all the same");
    assert_eq!(poll_file_url(&mut seen, Some(&board(5, 1, None))), None);
    assert_eq!(poll_file_url(&mut seen, Some(&board(6, 0, None))), None);
    assert_eq!(poll_file_url(&mut seen, Some(&board(7, 1, Some("https://a/b")))), None);
    assert_eq!(seen, 7);
}

#[test]
fn set_file_url_rejects_empty_path() {
    assert!(set_file_url("", None).is_err());
    assert!(set_file_url("", Some(true)).is_err());
}

#[test]
fn set_file_url_rejects_relative_path() {
    let bad = || Err(FileClipboardError::BadPath("notes.txt".to_string()));
    assert_eq!(set_file_url("notes.txt", Some(true)), bad());
    assert_eq!(set_file_url("notes.txt", Some(false)), bad());
    assert_eq!(check_file_url("notes.txt"), bad());
}

#[test]
fn set_file_url_reports_what_happened() {
    assert_eq!(set_file_url("/tmp/a", None), Err(FileClipboardError::PasteboardUnavailable));
    assert_eq!(set_file_url("", Some(true)), Err(FileClipboardError::BadPath(String::new())));
    assert_eq!(
        set_file_url("/tmp/a", Some(false)),
        Err(FileClipboardError::FfiError("NSPasteboard.writeObjects returned NO".to_string()))
    );
    assert_eq!(set_file_url("/tmp/a", Some(true)), Ok(()));
    assert_eq!(check_file_url("/tmp/a"), Ok(()));
    assert_eq!(check_file_url(""), Err(FileClipboardError::BadPath(String::new())));
}

#[test]
fn file_clipboard_errors_in_words() {
    assert_eq!(
        FileClipboardError::PasteboardUnavailable.to_text(),
        "pasteboard unavailable (non-macOS build or no AppKit session)"
    );
    assert_eq!(
        FileClipboardError::BadPath("x".to_string()).to_text(),
        "invalid path for clipboard: x"
    );
    assert_eq!(FileClipboardError::FfiError("y".to_string()).to_text(), "AppKit FFI error: y");
}

#[test]
fn only_absolute_paths_pass() {
    assert_eq!(absolute("/a".to_string()), Some("/a".to_string()));
    assert_eq!(absolute("a/b".to_string()), None);
    assert_eq!(absolute(String::new()), None);
}
