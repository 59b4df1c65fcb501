use winky::endpoint::{
    health_endpoint, parse_u16, resolve_host, resolve_port, u16_to_string, DEFAULT_PORT,
};

#[test]
fn port_parsing() {
    assert_eq!(parse_u16("8868"), Some(8868));
    assert_eq!(parse_u16("0"), Some(0));
    assert_eq!(parse_u16("+123"), Some(123));
    assert_eq!(parse_u16("65535"), Some(65535));
    assert_eq!(parse_u16("65536"), None);
    assert_eq!(parse_u16(""), None);
    assert_eq!(parse_u16("+"), None);
    assert_eq!(parse_u16("12a"), None);
    assert_eq!(parse_u16("-1"), None);
    assert_eq!(parse_u16(" 1"), None);
}

#[test]
fn port_resolution_precedence() {
    assert_eq!(resolve_port(Some("9000"), Some("9100")), 9000);
    assert_eq!(resolve_port(None, Some("9100")), 9100);
    assert_eq!(resolve_port(None, None), DEFAULT_PORT);
    // An unparsable dedicated override falls to the default, not to the
    // generic one.
    assert_eq!(resolve_port(Some("junk"), Some("9100")), DEFAULT_PORT);
}

#[test]
fn host_resolution_precedence() {
    assert_eq!(resolve_host(Some("a".to_string()), Some("b".to_string())), "a");
    assert_eq!(resolve_host(None, Some("b".to_string())), "b");
    assert_eq!(resolve_host(None, None), "127.0.0.1");
}

#[test]
fn decimal_rendering() {
    assert_eq!(u16_to_string(0), "0");
    assert_eq!(u16_to_string(7), "7");
    assert_eq!(u16_to_string(42), "42");
    assert_eq!(u16_to_string(8868), "8868");
    assert_eq!(u16_to_string(65535), "65535");
}

#[test]
fn health_endpoint_urls() {
    assert_eq!(health_endpoint("127.0.0.1", 8868), "http://127.0.0.1:8868/health");
    assert_eq!(health_endpoint("127.0.0.1", 9000), "http://127.0.0.1:9000/health");
    assert_eq!(health_endpoint("0.0.0.0", 8868), "http://0.0.0.0:8868/health");
}
