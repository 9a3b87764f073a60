use minihttp::{HttpVersion, ParseRequestErr};

#[test]
fn version_tokens() {
    assert_eq!(HttpVersion::from_str("HTTP/1.1").unwrap(), HttpVersion::new(1, 1));
    assert_eq!(HttpVersion::from_str("HTTP/1").unwrap(), HttpVersion::new(1, 0));
    assert_eq!(HttpVersion::from_str("HTTP/2.0").unwrap(), HttpVersion::new(2, 0));
}

#[test]
fn malformed_version_tokens() {
    match HttpVersion::from_str("HTTP1.1") {
        Err(ParseRequestErr::InvalidVersion(t)) => assert_eq!(t, "HTTP1.1"),
        other => panic!("{:?}", other),
    }
    match HttpVersion::from_str("HTTP/1.1.1") {
        Err(ParseRequestErr::InvalidVersion(t)) => assert_eq!(t, "HTTP/1.1.1"),
        other => panic!("{:?}", other),
    }
    assert!(matches!(HttpVersion::from_str("HTTP/"), Err(ParseRequestErr::ParseIntError(_))));
    assert!(matches!(HttpVersion::from_str("HTTP/1."), Err(ParseRequestErr::ParseIntError(_))));
    assert!(matches!(
        HttpVersion::from_str("HTTP/4294967296"),
        Err(ParseRequestErr::ParseIntError(_))
    ));
    assert_eq!(
        HttpVersion::from_str("HTTP/4294967295").unwrap(),
        HttpVersion::new(4294967295, 0)
    );
}

#[test]
fn version_text_omits_zero_minor() {
    assert_eq!(HttpVersion::new(1, 0).to_string(), "HTTP/1");
    assert_eq!(HttpVersion::new(1, 1).to_string(), "HTTP/1.1");
    assert_eq!(HttpVersion::new(10, 25).to_string(), "HTTP/10.25");
}

#[test]
fn version_text_reads_back() {
    for v in [HttpVersion::new(1, 0), HttpVersion::new(1, 1), HttpVersion::new(3, 207)] {
        assert_eq!(HttpVersion::from_str(&v.to_string()).unwrap(), v);
    }
}
