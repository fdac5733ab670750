use http::{HeaderMap, HeaderName, HeaderValue};
use warpgate::headers::{
    accept_without_protobuf, copy_response_headers, is_impersonation_header, is_sensitive_header,
    is_streaming_response, query_streams, redact_headers, take_request_headers, upstream_headers,
    HeaderFields,
};

fn fields(list: &[(&str, &str)]) -> HeaderFields {
    let mut headers = HeaderFields::new();
    for (name, value) in list {
        headers.insert((*name).to_owned(), (*value).to_owned());
    }
    headers
}

fn map(list: &[(&str, &str)]) -> HeaderMap<HeaderValue> {
    let mut headers: HeaderMap<HeaderValue> = HeaderMap::new();
    for (name, value) in list {
        headers.append(
            HeaderName::from_bytes(name.as_bytes()).unwrap(),
            HeaderValue::from_str(value).unwrap(),
        );
    }
    headers
}

fn entry<'a>(headers: &'a HeaderFields, name: &str) -> Option<&'a str> {
    headers
        .entries()
        .iter()
        .find(|e| e.0 == name)
        .map(|e| e.1.as_str())
}

#[test]
fn impersonation_detection_is_case_insensitive() {
    assert!(is_impersonation_header("Impersonate-User"));
    assert!(is_impersonation_header("impersonate-group"));
    assert!(is_impersonation_header("Impersonate-Uid"));
    assert!(is_impersonation_header("IMPERSONATE-Extra-scopes"));
    assert!(!is_impersonation_header("authorization"));
    assert!(!is_impersonation_header("accept"));
}

#[test]
fn redact_drops_secrets_and_impersonation() {
    let mut headers = HeaderFields::new();
    headers.insert("Authorization".into(), "Bearer secret".into());
    headers.insert("Cookie".into(), "session=1".into());
    headers.insert("Impersonate-User".into(), "root".into());
    headers.insert("Impersonate-Group".into(), "system:masters".into());
    headers.insert("Accept".into(), "application/json".into());

    let redacted = redact_headers(&headers);

    assert_eq!(redacted.len(), 1);
    assert!(redacted.contains_key("Accept"));
    assert!(!redacted.contains_key("Authorization"));
    assert!(!redacted.contains_key("Cookie"));
    assert!(!redacted
        .entries()
        .iter()
        .any(|e| is_impersonation_header(&e.0)));
}

#[test]
fn sensitive_headers_in_any_case() {
    for name in ["authorization", "Authorization", "COOKIE", "Impersonate-User"] {
        assert!(is_sensitive_header(name), "{}", name);
    }
    for name in ["accept", "Set-Cookie", "authorization2"] {
        assert!(!is_sensitive_header(name), "{}", name);
    }
}

#[test]
fn redacting_twice_changes_nothing() {
    let headers = fields(&[("Cookie", "a"), ("X-One", "1"), ("accept", "*/*")]);
    let once = redact_headers(&headers);
    let twice = redact_headers(&once);
    assert_eq!(once.entries(), twice.entries());
    assert_eq!(entry(&once, "X-One"), Some("1"));
}

#[test]
fn inserting_replaces_the_value_of_a_name() {
    let headers = fields(&[("a", "1"), ("b", "2"), ("a", "3")]);
    assert_eq!(headers.len(), 2);
    assert_eq!(entry(&headers, "a"), Some("3"));
    assert!(headers.contains_key("b"));
    assert!(!headers.contains_key("A"));
}

#[test]
fn protobuf_is_taken_out_of_the_accept_header() {
    assert_eq!(
        accept_without_protobuf("application/vnd.kubernetes.protobuf, application/json ,*/*"),
        "application/json, */*"
    );
    assert_eq!(accept_without_protobuf("application/json"), "application/json");
    assert_eq!(accept_without_protobuf("application/vnd.kubernetes.protobuf"), "");
}

#[test]
fn requests_lose_what_may_not_be_forwarded() {
    let headers = map(&[
        ("accept", "application/vnd.kubernetes.protobuf,application/json"),
        ("accept-encoding", "gzip"),
        ("impersonate-user", "root"),
        ("x-kept", "1"),
        ("x-kept", "2"),
        ("connection", "close"),
        ("authorization", "Bearer secret"),
    ]);
    let forwardable: Vec<String> = ["accept", "impersonate-user", "x-kept", "authorization"]
        .iter()
        .map(|n| (*n).to_owned())
        .collect();
    let taken = take_request_headers(&headers, &forwardable);
    assert_eq!(taken.len(), 4);
    assert_eq!(entry(&taken, "accept"), Some("application/json"));
    assert_eq!(entry(&taken, "accept-encoding"), Some("gzip"));
    assert_eq!(entry(&taken, "x-kept"), Some("2"));
    assert_eq!(entry(&taken, "authorization"), Some("Bearer secret"));

    let sent = upstream_headers(&taken);
    assert!(!sent.contains_key("authorization"));
    assert_eq!(entry(&sent, "x-kept"), Some("2"));
}

#[test]
fn a_value_that_is_no_text_is_left_out_of_a_request() {
    let mut headers: HeaderMap<HeaderValue> = HeaderMap::new();
    headers.insert("x-bytes", HeaderValue::from_bytes(b"\xff").unwrap());
    headers.insert("x-text", HeaderValue::from_static("t"));
    let taken = take_request_headers(&headers, &vec!["x-bytes".to_owned(), "x-text".to_owned()]);
    assert_eq!(taken.len(), 1);
    assert!(taken.contains_key("x-text"));
}

#[test]
fn the_gateway_sets_its_own_host_length_and_credentials() {
    let headers = fields(&[
        ("Host", "a"),
        ("content-length", "3"),
        ("authorization", "Bearer secret"),
        ("x-kept", "1"),
    ]);
    let sent = upstream_headers(&headers);
    assert_eq!(sent.len(), 1);
    assert_eq!(entry(&sent, "x-kept"), Some("1"));
}

#[test]
fn response_headers_are_copied_in_order() {
    let headers = map(&[("content-type", "application/json"), ("x-a", "1"), ("x-a", "2")]);
    let copied = copy_response_headers(&headers);
    assert_eq!(copied.len(), 3);
    assert!(copied.iter().any(|f| f.0 == "content-type" && f.1 == b"application/json"));
    let values: Vec<&[u8]> = copied
        .iter()
        .filter(|f| f.0 == "x-a")
        .map(|f| f.1.as_slice())
        .collect();
    assert_eq!(values, vec![b"1".as_slice(), b"2".as_slice()]);
}

#[test]
fn a_malformed_field_is_not_sent_on() {
    let headers = fields(&[("bad name", "1"), ("x-break", "a\nb"), ("", "1"), ("X-Ok", "\ta")]);
    let sent = upstream_headers(&headers);
    assert_eq!(sent.len(), 1);
    assert_eq!(entry(&sent, "X-Ok"), Some("\ta"));
}

#[test]
fn a_query_is_decoded_before_it_is_looked_at() {
    let none: HeaderMap<HeaderValue> = HeaderMap::new();
    assert!(is_streaming_response(&none, Some("wa%74ch=true")));
    assert!(!is_streaming_response(&none, Some("watch=TRUE")));
    assert!(!is_streaming_response(&none, None));
    assert!(query_streams(&vec![("follow".to_owned(), "true".to_owned())]));
    assert!(!query_streams(&vec![("followed".to_owned(), "true".to_owned())]));
}

/// A header map can hold a name that is not well formed, and then the response
/// loses that field and no other.
#[test]
fn a_malformed_response_header_is_left_out_alone() {
    let mut headers = http::HeaderMap::new();
    headers.append("x-a", http::HeaderValue::from_static("1"));
    let quoted = http::HeaderName::from_lowercase(b"x\"q").unwrap();
    headers.append(quoted, http::HeaderValue::from_static("2"));
    headers.append("x-a", http::HeaderValue::from_static("3"));
    let mut copied = copy_response_headers(&headers);
    copied.sort();
    assert_eq!(
        copied,
        [("x-a".to_owned(), b"1".to_vec()), ("x-a".to_owned(), b"3".to_vec())]
    );
}
