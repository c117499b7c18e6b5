use warp_lambda::{
    is_text_safe, query_string, request_body_bytes, response_event_body, synthesized_target,
    translate_request, EventBody, MediaType, TranslateError,
};

fn pairs(items: &[(&str, &str)]) -> Vec<(String, String)> {
    items.iter().map(|(k, v)| (k.to_string(), v.to_string())).collect()
}

fn ct(s: &str) -> Option<Vec<u8>> {
    Some(s.as_bytes().to_vec())
}

#[test]
fn empty_body_gives_no_bytes() {
    assert_eq!(request_body_bytes(EventBody::Empty), Vec::<u8>::new());
}

#[test]
fn text_body_gives_utf8_bytes() {
    let s = "héllo ✓";
    assert_eq!(request_body_bytes(EventBody::Text(s.to_string())), s.as_bytes().to_vec());
}

#[test]
fn binary_body_is_kept() {
    let b = vec![0u8, 255, 128, 10, 0];
    assert_eq!(request_body_bytes(EventBody::Binary(b.clone())), b);
}

#[test]
fn query_string_encodes_pairs() {
    let q = query_string(&pairs(&[("a", "1"), ("b", "x y")]));
    assert_eq!(q, "a=1&b=x+y");
}

#[test]
fn query_string_percent_encodes_reserved_bytes() {
    let q = query_string(&pairs(&[("k&=", "é/~*-._")]));
    assert_eq!(q, "k%26%3D=%C3%A9%2F%7E*-._");
}

#[test]
fn query_string_of_no_pairs_is_empty() {
    assert_eq!(query_string(&Vec::new()), "");
}

#[test]
fn query_pairs_round_trip() {
    let given = pairs(&[("a", "1"), ("b", "x y")]);
    let target = synthesized_target("/path", &given);
    let (before, query) = target.split_once('?').unwrap();
    assert_eq!(before, "http://127.0.0.1/path");
    let parsed: Vec<(String, String)> = url::form_urlencoded::parse(query.as_bytes())
        .map(|(k, v)| (k.into_owned(), v.into_owned()))
        .collect();
    assert_eq!(parsed, given);
}

#[test]
fn target_without_query_has_no_question_mark() {
    assert_eq!(synthesized_target("/a/b", &Vec::new()), "http://127.0.0.1/a/b");
}

#[test]
fn translate_request_builds_uri_and_body() {
    let r = translate_request("/items", &pairs(&[("id", "7")]), EventBody::Text("hi".to_string()))
        .unwrap();
    assert_eq!(r.target, "http://127.0.0.1/items?id=7");
    assert_eq!(r.uri.path(), "/items");
    assert_eq!(r.uri.query(), Some("id=7"));
    assert_eq!(r.uri.host(), Some("127.0.0.1"));
    assert_eq!(r.body, b"hi".to_vec());
}

#[test]
fn translate_request_rejects_bad_uri() {
    let r = translate_request("/a b", &Vec::new(), EventBody::Empty);
    assert_eq!(r.err(), Some(TranslateError::InvalidUri));
}

#[test]
fn translate_request_twice_is_identical() {
    let given = pairs(&[("q", "a b"), ("z", "ü")]);
    let first = translate_request("/x", &given, EventBody::Binary(vec![1, 2, 3])).unwrap();
    let second = translate_request("/x", &given, EventBody::Binary(vec![1, 2, 3])).unwrap();
    assert_eq!(first.target, second.target);
    assert_eq!(first.uri, second.uri);
    assert_eq!(first.body, second.body);
}

#[test]
fn json_response_is_text() {
    let r = response_event_body(ct("application/json"), false, b"{\"a\":1}".to_vec()).unwrap();
    assert!(matches!(r, EventBody::Text(ref s) if s == "{\"a\":1}"));
}

#[test]
fn upper_case_json_response_is_text() {
    let r = response_event_body(ct("Application/JSON"), false, "ü".as_bytes().to_vec()).unwrap();
    assert!(matches!(r, EventBody::Text(ref s) if s == "ü"));
}

#[test]
fn javascript_utf8_response_is_text() {
    let r = response_event_body(ct("application/javascript; charset=utf-8"), false, b"f()".to_vec())
        .unwrap();
    assert!(matches!(r, EventBody::Text(ref s) if s == "f()"));
}

#[test]
fn plain_text_response_is_text() {
    let r = response_event_body(ct("text/html; charset=utf-8"), false, b"<p>".to_vec()).unwrap();
    assert!(matches!(r, EventBody::Text(ref s) if s == "<p>"));
}

#[test]
fn gzip_response_is_binary() {
    let bytes = vec![0x1f, 0x8b, 8, 0];
    let r = response_event_body(ct("application/json"), true, bytes.clone()).unwrap();
    assert!(matches!(r, EventBody::Binary(ref b) if *b == bytes));
}

#[test]
fn untyped_response_is_binary() {
    let bytes = b"plain words".to_vec();
    let r = response_event_body(None, false, bytes.clone()).unwrap();
    assert!(matches!(r, EventBody::Binary(ref b) if *b == bytes));
}

#[test]
fn image_response_is_binary() {
    let bytes = vec![137u8, 80, 78, 71];
    let r = response_event_body(ct("image/png"), false, bytes.clone()).unwrap();
    assert!(matches!(r, EventBody::Binary(ref b) if *b == bytes));
}

#[test]
fn json_with_parameters_is_binary() {
    let r = response_event_body(ct("application/json; charset=utf-8"), false, b"{}".to_vec())
        .unwrap();
    assert!(matches!(r, EventBody::Binary(_)));
}

#[test]
fn invalid_utf8_text_response_fails() {
    let r = response_event_body(ct("application/json"), false, vec![0xff, 0xfe]);
    assert_eq!(r.err(), Some(TranslateError::InvalidUtf8));
}

#[test]
fn non_ascii_content_type_fails() {
    let r = response_event_body(Some(vec![b't', 0x7f]), false, b"x".to_vec());
    assert_eq!(r.err(), Some(TranslateError::HeaderNotText));
}

#[test]
fn unparsable_content_type_fails() {
    let r = response_event_body(ct("not a media type"), false, b"x".to_vec());
    assert_eq!(r.err(), Some(TranslateError::InvalidMediaType));
}

#[test]
fn text_safe_media_types() {
    let m = |source: &str, top: &str| MediaType { source: source.to_string(), top: top.to_string() };
    assert!(is_text_safe(&m("application/json", "application")));
    assert!(is_text_safe(&m("application/javascript", "application")));
    assert!(is_text_safe(&m("text/csv", "text")));
    assert!(!is_text_safe(&m("application/xml", "application")));
}
