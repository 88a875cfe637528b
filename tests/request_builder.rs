use web_fetch::headers::names_match;
use web_fetch::{Body, Method, Request, RequestCache, RequestCredentials, RequestMode};

#[test]
fn method_names_are_upper_case() {
    assert_eq!(Method::GET.as_str(), "GET");
    assert_eq!(Method::POST.as_str(), "POST");
    assert_eq!(Method::PATCH.as_str(), "PATCH");
    assert_eq!(Method::DELETE.as_str(), "DELETE");
    assert_eq!(Method::PUT.as_str(), "PUT");
    assert_eq!(Method::DELETE.to_string(), "DELETE");
}

#[test]
fn new_request_is_bare() {
    let r = Request::new("https://example.org/a");
    assert_eq!(r.url(), "https://example.org/a");
    assert_eq!(r.chosen_method(), None);
    assert_eq!(r.header_count(), 0);
    assert_eq!(r.text_body(), None);
    assert_eq!(r.header_value("accept"), None);
}

#[test]
fn convenience_constructors_set_the_method() {
    let url = "https://example.org/x";
    let cases = [
        (Request::get(url), Method::GET),
        (Request::post(url), Method::POST),
        (Request::put(url), Method::PUT),
        (Request::delete(url), Method::DELETE),
        (Request::patch(url), Method::PATCH),
    ];
    for (r, m) in cases {
        let plain = Request::new(url).method(m);
        assert_eq!(r.chosen_method(), Some(m));
        assert_eq!(r.chosen_method(), plain.chosen_method());
        assert_eq!(r.url(), plain.url());
        assert_eq!(r.header_count(), 0);
        assert_eq!(r.text_body(), None);
    }
}

#[test]
fn header_reads_back_ignoring_case() {
    let r = Request::get("https://example.org").header("Content-Type", "text/plain");
    assert_eq!(r.header_value("content-type"), Some("text/plain"));
    assert_eq!(r.header_value("CONTENT-TYPE"), Some("text/plain"));
    assert_eq!(r.header_value("content-length"), None);
}

#[test]
fn later_header_replaces_earlier() {
    let r = Request::get("https://example.org")
        .header("X-Token", "one")
        .header("accept", "*/*")
        .header("x-token", "two");
    assert_eq!(r.header_value("X-TOKEN"), Some("two"));
    assert_eq!(r.header_value("Accept"), Some("*/*"));
    assert_eq!(r.header_count(), 3);
}

#[test]
fn header_names_compare_only_ascii_case() {
    assert!(names_match("Accept", "aCCEPT"));
    assert!(!names_match("accept", "accepts"));
    assert!(!names_match("a-b", "a_b"));
    assert!(!names_match("\u{e9}", "\u{c9}"));
    assert!(names_match("", ""));
}

#[test]
fn post_with_json_body() {
    let r = Request::post("https://api.example/items")
        .header("content-type", "application/json")
        .body(Body::Text(String::from(r#"{"a":1}"#)));
    assert_eq!(r.chosen_method(), Some(Method::POST));
    assert_eq!(r.url(), "https://api.example/items");
    assert_eq!(r.header_value("Content-Type"), Some("application/json"));
    assert_eq!(r.text_body(), Some(r#"{"a":1}"#));
}

#[test]
fn option_setters_keep_the_rest() {
    let r = Request::put("https://example.org/p")
        .header("a", "1")
        .cache(RequestCache::NoStore)
        .credentials(RequestCredentials::Include)
        .mode(RequestMode::Cors)
        .integrity("sha256-abc")
        .referrer("https://example.org/")
        .body(Body::Text(String::from("x")));
    assert_eq!(r.chosen_method(), Some(Method::PUT));
    assert_eq!(r.header_value("A"), Some("1"));
    assert_eq!(r.text_body(), Some("x"));
    assert_eq!(r.url(), "https://example.org/p");
}
