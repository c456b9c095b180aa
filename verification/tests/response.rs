use wasi_http::{ClientError, Response};

fn pairs(ps: &[(&str, &str)]) -> Vec<(String, String)> {
    ps.iter().map(|(n, v)| (n.to_string(), v.to_string())).collect()
}

fn make(url: &str, status: u16, headers: &[(&str, &str)], body: &[u8]) -> Response {
    Response::new(url.to_string(), status, pairs(headers), body.to_vec())
}

#[test]
fn reports_supplied_status_and_headers() {
    let r = make(
        "http://example.com/a",
        200,
        &[("Content-Type", "text/plain"), ("X-Two", "b")],
        b"hi",
    );
    assert_eq!(r.status(), 200);
    let h = r.headers();
    assert_eq!(h.len(), 2);
    assert_eq!(h.name_at(0), "Content-Type");
    assert_eq!(h.value_at(0), "text/plain");
    assert_eq!(h.name_at(1), "X-Two");
    assert_eq!(h.value_at(1), "b");
    assert_eq!(r.url(), "http://example.com/a");
}

#[test]
fn bytes_round_trip() {
    let body: Vec<u8> = vec![0, 159, 146, 150, 255];
    let r = make("http://example.com/", 204, &[], &body);
    assert_eq!(r.bytes().unwrap(), body);
}

#[test]
fn bytes_round_trip_empty() {
    let r = make("http://example.com/", 200, &[], b"");
    assert_eq!(r.bytes().unwrap(), Vec::<u8>::new());
}

#[test]
fn chunk_copies_body_without_consuming() {
    let mut r = make("http://example.com/", 200, &[], b"abc");
    let c = r.chunk().unwrap();
    assert_eq!(c, Some(b"abc".to_vec()));
    assert_eq!(r.bytes().unwrap(), b"abc".to_vec());
}

#[test]
fn content_length_parses_valid_header() {
    let r = make("http://example.com/", 200, &[("Content-Length", "42")], b"");
    assert_eq!(r.content_length(), Some(42));
}

#[test]
fn content_length_is_case_insensitive_and_takes_first() {
    let r = make(
        "http://example.com/",
        200,
        &[("CONTENT-LENGTH", "7"), ("content-length", "9")],
        b"",
    );
    assert_eq!(r.content_length(), Some(7));
}

#[test]
fn content_length_absent_without_header() {
    let r = make("http://example.com/", 200, &[("Content-Type", "x")], b"");
    assert_eq!(r.content_length(), None);
}

#[test]
fn content_length_absent_on_non_numeric_value() {
    let r = make("http://example.com/", 200, &[("Content-Length", "abc")], b"");
    assert_eq!(r.content_length(), None);
}

#[test]
fn content_length_accepts_leading_plus() {
    let r = make("http://example.com/", 200, &[("Content-Length", "+42")], b"");
    assert_eq!(r.content_length(), Some(42));
}

#[test]
fn content_length_absent_on_overflow() {
    let r = make(
        "http://example.com/",
        200,
        &[("Content-Length", "18446744073709551616")],
        b"",
    );
    assert_eq!(r.content_length(), None);
    let r2 = make(
        "http://example.com/",
        200,
        &[("Content-Length", "18446744073709551615")],
        b"",
    );
    assert_eq!(r2.content_length(), Some(u64::MAX));
}

#[test]
fn content_length_absent_on_empty_or_sign_only_value() {
    let r = make("http://example.com/", 200, &[("Content-Length", "")], b"");
    assert_eq!(r.content_length(), None);
    let r2 = make("http://example.com/", 200, &[("Content-Length", "+")], b"");
    assert_eq!(r2.content_length(), None);
}

#[test]
fn error_for_status_passes_200_through_unchanged() {
    let r = make("http://example.com/ok", 200, &[("X", "y")], b"body");
    let r = r.error_for_status().unwrap();
    assert_eq!(r.status(), 200);
    assert_eq!(r.url(), "http://example.com/ok");
    assert_eq!(r.headers().len(), 1);
    assert_eq!(r.bytes().unwrap(), b"body".to_vec());
}

#[test]
fn error_for_status_promotes_404_and_500() {
    for status in [404u16, 500u16] {
        let r = make("http://example.com/missing", status, &[], b"");
        let e = r.error_for_status().unwrap_err();
        assert!(e.is_status());
        assert_eq!(e.status(), Some(status));
        assert_eq!(e.url().map(|u| u.as_str()), Some("http://example.com/missing"));
    }
}

#[test]
fn error_for_status_passes_3xx_and_6xx_through() {
    let r = make("http://example.com/", 301, &[], b"");
    assert!(r.error_for_status().is_ok());
    let r = make("http://example.com/", 600, &[], b"");
    assert!(r.error_for_status().is_ok());
}

#[test]
fn error_for_status_ref_inspects_without_consuming() {
    let r = make("http://example.com/x", 503, &[], b"still here");
    let e = r.error_for_status_ref().unwrap_err();
    assert_eq!(e.status(), Some(503));
    assert_eq!(e.url().map(|u| u.as_str()), Some("http://example.com/x"));
    assert_eq!(r.bytes().unwrap(), b"still here".to_vec());

    let ok = make("http://example.com/y", 200, &[], b"");
    assert!(ok.error_for_status_ref().is_ok());
}

#[test]
fn text_decodes_utf8_body() {
    let r = make("http://example.com/", 200, &[], b"hello");
    assert_eq!(r.text().unwrap(), "hello");
}

#[test]
fn text_decodes_multibyte_utf8() {
    let r = make("http://example.com/", 200, &[], "gr\u{fc}\u{df}".as_bytes());
    assert_eq!(r.text().unwrap(), "gr\u{fc}\u{df}");
}

#[test]
fn text_rejects_invalid_utf8() {
    let r = make("http://example.com/", 200, &[], &[0xff, 0xfe, 0x61]);
    let e = r.text().unwrap_err();
    assert!(e.is_decode());
    assert!(matches!(e, ClientError::Decode));
}

#[test]
fn json_parses_valid_document() {
    let r = make("http://example.com/", 200, &[], b"{\"a\": [1, 2, 3]}");
    let v = r.json().unwrap();
    assert_eq!(v["a"][2], serde_json::Value::from(3));
}

#[test]
fn json_rejects_malformed_document() {
    let r = make("http://example.com/", 200, &[], b"{not json");
    let e = r.json().unwrap_err();
    assert!(e.is_decode());
}

#[test]
fn headers_mut_appends_in_place() {
    let mut r = make("http://example.com/", 200, &[("A", "1")], b"");
    r.headers_mut().append("B".to_string(), "2".to_string());
    assert_eq!(r.headers().len(), 2);
    assert_eq!(r.headers().name_at(1), "B");
    assert_eq!(r.headers().get("b").map(|v| v.as_str()), Some("2"));
    assert_eq!(r.status(), 200);
}
