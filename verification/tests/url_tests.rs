//! URL and host validation, and the URL rewriting the sinks rely on.
use uption::url::Host;
use uption::url::HttpUrl;
use uption::url::Ipv4Address;
use uption::url::ParseError;

#[test]
fn parses_http_and_https_urls() {
    let u = HttpUrl::parse("https://example.com").unwrap();
    assert_eq!(u.as_str(), "https://example.com/");
    let u = HttpUrl::parse("http://example.com/path?q=1").unwrap();
    assert_eq!(u.as_str(), "http://example.com/path?q=1");
}

#[test]
fn rejects_other_schemes() {
    match HttpUrl::parse("ftp://example.com") {
        Err(ParseError::InvalidUrlScheme) => {},
        _ => panic!("an ftp URL must be rejected for its scheme"),
    }
}

#[test]
fn rejects_unparseable_urls() {
    match HttpUrl::parse("not a url") {
        Err(ParseError::UrlParseError(text)) => assert!(!text.is_empty()),
        _ => panic!("junk must be rejected as unparseable"),
    }
}

#[test]
fn set_path_and_query_rewrite_the_url() {
    let mut u = HttpUrl::parse("http://localhost:8086").unwrap();
    u.set_path("write");
    assert_eq!(u.as_str(), "http://localhost:8086/write");
    u.append_query_pair("db", "telemetry");
    assert_eq!(u.as_str(), "http://localhost:8086/write?db=telemetry");
    u.append_query_pair("precision", "ms");
    assert_eq!(u.as_str(), "http://localhost:8086/write?db=telemetry&precision=ms");
}

#[test]
fn parses_hosts_and_addresses() {
    let h = Host::parse("example.com").unwrap();
    assert_eq!(h.as_text(), "example.com");
    let h = Host::parse("127.0.0.1").unwrap();
    assert_eq!(h.as_text(), "127.0.0.1");
    assert!(Host::parse("exa mple").is_err());
}

#[test]
fn ipv4_renders_dotted_decimal() {
    assert_eq!(Ipv4Address::new(8, 8, 8, 8).render(), "8.8.8.8");
    assert_eq!(Ipv4Address::new(0, 0, 0, 0).render(), "0.0.0.0");
    assert_eq!(Ipv4Address::new(255, 254, 1, 0).render(), "255.254.1.0");
}
