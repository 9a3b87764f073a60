use minihttp::{Headers, HttpResponse, HttpStatusCode, HttpVersion};

#[test]
fn status_text_matches_table() {
    assert_eq!(HttpStatusCode::NotFound.to_string(), "404 Not Found");
    assert_eq!(HttpStatusCode::ImATeapot.to_string(), "418 I'm a teapot");
    assert_eq!(HttpStatusCode::OK.to_string(), "200 OK");
    assert_eq!(HttpStatusCode::Continue.to_string(), "100 Continue");
    assert_eq!(
        HttpStatusCode::NetworkAuthenticationRequired.to_string(),
        "511 Network Authentication Required"
    );
    assert_eq!(HttpStatusCode::Unused.get_readable_name(), "unused");
}

#[test]
fn every_status_code_reads_back() {
    let mut seen = 0;
    for n in 0u16..1000 {
        if let Some(st) = HttpStatusCode::from_code(n) {
            seen += 1;
            assert_eq!(st.code(), n);
            assert_eq!(st.to_string(), format!("{} {}", n, st.get_readable_name()));
        }
    }
    assert_eq!(seen, 63);
    assert_eq!(HttpStatusCode::from_code(404), Some(HttpStatusCode::NotFound));
    assert_eq!(HttpStatusCode::from_code(999), None);
}

#[test]
fn teapot_response_wire_form() {
    let r = HttpResponse::im_a_teapot("short and stout");
    assert_eq!(r.status(), HttpStatusCode::ImATeapot);
    assert_eq!(r.version(), HttpVersion::new(1, 1));
    assert!(r.headers().is_empty());
    assert_eq!(r.body(), "short and stout");
    assert_eq!(r.to_string(), "HTTP/1.1 418 I'm a teapot\r\n\r\nshort and stout");
}

#[test]
fn response_with_headers_wire_form() {
    let mut h = Headers::new();
    h.insert("Content-Type".to_string(), "text/plain".to_string());
    h.insert("X".to_string(), "1".to_string());
    h.insert("Content-Type".to_string(), "text/html".to_string());
    let r = HttpResponse::new(HttpStatusCode::OK, HttpVersion::new(1, 0), h, "<p>".to_string());
    assert_eq!(r.to_string(), "HTTP/1 200 OK\r\nContent-Type: text/html\r\nX: 1\r\n\r\n<p>");
}

#[test]
fn empty_response_wire_form() {
    let r = HttpResponse::new(
        HttpStatusCode::OK,
        HttpVersion::new(1, 1),
        Headers::new(),
        String::new(),
    );
    assert_eq!(r.to_string(), "HTTP/1.1 200 OK\r\n\r\n");
}

#[test]
fn serialized_status_line_reads_back() {
    let mut h = Headers::new();
    h.insert("Server".to_string(), "x".to_string());
    for n in 0u16..1000 {
        if let Some(st) = HttpStatusCode::from_code(n) {
            for v in [HttpVersion::new(1, 0), HttpVersion::new(1, 1), HttpVersion::new(2, 0)] {
                let r = HttpResponse::new(st, v, h.clone(), "b".to_string());
                assert_eq!(HttpResponse::parse_status_line(&r.to_string()), Some((v, st)));
            }
        }
    }
}

#[test]
fn malformed_status_lines() {
    assert_eq!(HttpResponse::parse_status_line("HTTP/1.1 999 Nope\r\n"), None);
    assert_eq!(HttpResponse::parse_status_line("HTTP/1.1 200\r\n"), None);
    assert_eq!(HttpResponse::parse_status_line("HTTP1.1 200 OK\r\n"), None);
    assert_eq!(HttpResponse::parse_status_line("HTTP/1.1  200 OK\r\n"), None);
    assert_eq!(
        HttpResponse::parse_status_line("HTTP/1.1 404 Not Found\r\n"),
        Some((HttpVersion::new(1, 1), HttpStatusCode::NotFound))
    );
}
