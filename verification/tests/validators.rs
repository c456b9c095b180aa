use wasi_http::chars::{check_header_name, check_header_value, eq_ignore_ascii_case};

#[test]
fn header_name_validation() {
    assert!(check_header_name("Content-Length"));
    assert!(check_header_name("x-custom_1.y"));
    assert!(!check_header_name(""));
    assert!(!check_header_name("bad name"));
    assert!(!check_header_name("tab\there"));
    assert!(!check_header_name("colon:"));
}

#[test]
fn header_value_validation() {
    assert!(check_header_value("text/plain; charset=utf-8"));
    assert!(check_header_value(""));
    assert!(check_header_value("tab\tinside"));
    assert!(!check_header_value("line\nbreak"));
    assert!(!check_header_value("carriage\rreturn"));
    assert!(!check_header_value("\u{7f}"));
}

#[test]
fn ascii_case_insensitive_comparison() {
    assert!(eq_ignore_ascii_case("Content-Length", "content-length"));
    assert!(eq_ignore_ascii_case("", ""));
    assert!(!eq_ignore_ascii_case("a", "b"));
    assert!(!eq_ignore_ascii_case("a", "ab"));
    // Case folding is ASCII-only: non-ASCII letters compare exactly.
    assert!(!eq_ignore_ascii_case("\u{c4}", "\u{e4}"));
}
