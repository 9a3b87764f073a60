use minihttp::{Error, HttpMethod, HttpRequest, HttpVersion};

fn parse(s: &str) -> HttpRequest {
    match HttpRequest::from_str(s) {
        Ok(r) => r,
        Err(e) => panic!("{:?} refused: {:?}", s, e),
    }
}

#[test]
fn method_tokens_parse_to_their_method() {
    let all = [
        ("GET", HttpMethod::GET),
        ("HEAD", HttpMethod::HEAD),
        ("POST", HttpMethod::POST),
        ("PUT", HttpMethod::PUT),
        ("DELETE", HttpMethod::DELETE),
        ("CONNECT", HttpMethod::CONNECT),
        ("OPTIONS", HttpMethod::OPTIONS),
        ("TRACE", HttpMethod::TRACE),
        ("PATCH", HttpMethod::PATCH),
    ];
    for (tok, m) in all {
        assert_eq!(HttpMethod::from_str(tok).unwrap(), m);
        let r = parse(&format!("{} / HTTP/1.1\r\n\r\n", tok));
        assert_eq!(r.method(), m);
    }
}

#[test]
fn unknown_method_is_refused() {
    match HttpMethod::from_str("FETCH") {
        Err(Error::InvalidMethod(t)) => assert_eq!(t, "FETCH"),
        other => panic!("{:?}", other),
    }
    match HttpRequest::from_str("FOO / HTTP/1.1\r\n\r\n") {
        Err(Error::InvalidMethod(t)) => assert_eq!(t, "FOO"),
        other => panic!("{:?}", other),
    }
    match HttpRequest::from_str("get / HTTP/1.1\r\n\r\n") {
        Err(Error::InvalidMethod(t)) => assert_eq!(t, ""),
        other => panic!("{:?}", other),
    }
}

#[test]
fn method_needs_a_space_after_it() {
    assert!(matches!(
        HttpRequest::from_str("GET/ HTTP/1.1\r\n\r\n"),
        Err(Error::FailedToParseHead)
    ));
}

#[test]
fn request_line_needs_its_terminator() {
    assert!(matches!(HttpRequest::from_str("GET / HTTP/1.1"), Err(Error::FailedToParseHead)));
    assert!(matches!(
        HttpRequest::from_str("GET / HTTP/1.1X\r\n\r\n"),
        Err(Error::FailedToParseHead)
    ));
}

#[test]
fn version_in_request_line() {
    assert_eq!(parse("GET / HTTP/1.1\r\n\r\n").version(), HttpVersion::new(1, 1));
    assert_eq!(parse("GET / HTTP/1\r\n\r\n").version(), HttpVersion::new(1, 0));
    assert_eq!(parse("GET / HTTP/2.0\r\n\r\n").version(), HttpVersion::new(2, 0));
    assert!(matches!(
        HttpRequest::from_str("GET / HTTP1.1\r\n\r\n"),
        Err(Error::FailedToParseVersion)
    ));
    assert!(matches!(
        HttpRequest::from_str("GET / HTTP/x\r\n\r\n"),
        Err(Error::ParseIntError(_))
    ));
    assert!(matches!(
        HttpRequest::from_str("GET / HTTP/1.99999999999\r\n\r\n"),
        Err(Error::ParseIntError(_))
    ));
}

#[test]
fn header_line_becomes_an_entry() {
    let r = parse("GET / HTTP/1.1\r\nContent-Type: text/plain\r\n\r\n");
    assert_eq!(r.headers().len(), 1);
    assert_eq!(r.headers().get("Content-Type"), Some(&"text/plain".to_string()));
    assert_eq!(r.headers().get("content-type"), None);
}

#[test]
fn header_line_without_separator_is_refused() {
    assert!(matches!(
        HttpRequest::from_str("GET / HTTP/1.1\r\nBadHeader\r\n\r\n"),
        Err(Error::FailedToParseHeaders)
    ));
    assert!(matches!(
        HttpRequest::from_str("GET / HTTP/1.1\r\nA: b"),
        Err(Error::FailedToParseHeaders)
    ));
}

#[test]
fn duplicate_header_keeps_last_value() {
    let r = parse("GET / HTTP/1.1\r\nA: 1\r\nB: 2\r\nA: 3\r\n\r\n");
    let h = r.headers();
    assert_eq!(h.len(), 2);
    assert_eq!(h.get("A"), Some(&"3".to_string()));
    assert_eq!(h.key_at(0), "A");
    assert_eq!(h.key_at(1), "B");
}

#[test]
fn body_boundary() {
    assert_eq!(parse("GET / HTTP/1.1\r\n\r\n").body(), "");
    assert_eq!(parse("GET / HTTP/1.1\r\n\r\nhello").body(), "hello");
    assert_eq!(parse("GET / HTTP/1.1\r\n").body(), "");
    assert_eq!(parse("POST /x HTTP/1.1\r\nA: b\r\n\r\nline\r\nmore").body(), "line\r\nmore");
    assert!(matches!(
        HttpRequest::from_str("GET / HTTP/1.1\r\n\nhello"),
        Err(Error::FailedToParseBody)
    ));
}

#[test]
fn full_request_fixture() {
    let r = parse("GET /foo HTTP/1.1\r\nHost: x\r\n\r\n");
    assert_eq!(r.method(), HttpMethod::GET);
    assert_eq!(r.path(), "/foo");
    assert_eq!(r.version(), HttpVersion::new(1, 1));
    assert_eq!(r.headers().len(), 1);
    assert_eq!(r.headers().get("Host"), Some(&"x".to_string()));
    assert_eq!(r.body(), "");
}

#[test]
fn path_is_taken_verbatim() {
    let r = parse("GET   /a%20b?q=1   HTTP/1.1\r\n\r\n");
    assert_eq!(r.path(), "/a%20b?q=1");
}

#[test]
fn parsing_twice_gives_equal_requests() {
    let msg = "PUT /item HTTP/1.1\r\nHost: x\r\nLength: 4\r\n\r\ndata";
    assert_eq!(parse(msg), parse(msg));
}

#[test]
fn new_and_from_str_agree() {
    let msg = "DELETE /x HTTP/1.1\r\nA: b\r\n\r\n";
    assert_eq!(HttpRequest::new(msg).unwrap(), parse(msg));
    assert!(matches!(HttpRequest::new("GET / HTTP/1.1\r\nBad\r\n"), Err(Error::FailedToParseHeaders)));
}

#[test]
fn header_name_cannot_span_lines() {
    assert!(matches!(
        HttpRequest::from_str("GET / HTTP/1.1\r\nA\r\nB: c\r\n\r\n"),
        Err(Error::FailedToParseHeaders)
    ));
}
