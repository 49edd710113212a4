use grpcknock::endpoint::AddrError;
use grpcknock::endpoint::Target;

#[test]
fn parses_host_and_port() {
    let t = Target::parse_addr("example.test:1234").unwrap();
    assert_eq!(t.host(), "example.test");
    assert_eq!(t.to_string(), "example.test:1234");
}

#[test]
fn rejects_addr_without_port() {
    assert!(matches!(
        Target::parse_addr("example.test"),
        Err(AddrError::MissingPort(_))
    ));
}

#[test]
fn rejects_unbracketed_ipv6() {
    // A bare IPv6 literal is ambiguous:
    // splitting on the last ':' would silently take the last group as the port.
    // It must be bracketed instead.
    assert!(matches!(
        Target::parse_addr("2001:db8::1:50051"),
        Err(AddrError::UnbracketedIpv6(_))
    ));
    assert!(matches!(
        Target::parse_addr("::1:50051"),
        Err(AddrError::UnbracketedIpv6(_))
    ));
}

#[test]
fn accepts_ipv6_literal_in_brackets() {
    let t = Target::parse_addr("[::1]:50051").unwrap();
    assert_eq!(t.host(), "::1");
    assert_eq!(t.to_string(), "[::1]:50051");
}

#[test]
fn uri_uses_http_without_tls() {
    assert_eq!(
        Target::localhost(50051).uri(false),
        "http://localhost:50051"
    );
}

#[test]
fn uri_uses_https_with_tls() {
    assert_eq!(
        Target::localhost(50051).uri(true),
        "https://localhost:50051"
    );
}

#[test]
fn uri_brackets_ipv6_host() {
    let t = Target::parse_addr("[::1]:50051").unwrap();
    assert_eq!(t.uri(false), "http://[::1]:50051");
}

#[test]
fn uri_brackets_ipv6_host_with_tls() {
    let t = Target::parse_addr("[2001:db8::1]:443").unwrap();
    assert_eq!(t.uri(true), "https://[2001:db8::1]:443");
}

#[test]
fn port_is_a_shortcut_for_a_localhost_address() {
    for port in [0u16, 7, 80, 50051, 65535] {
        let t = Target::parse_addr(&format!("localhost:{port}")).unwrap();
        assert_eq!(t.to_string(), Target::localhost(port).to_string());
        assert_eq!(t.host(), Target::localhost(port).host());
    }
}

#[test]
fn a_written_target_reads_back() {
    for addr in ["a:0", "example.test:65535", "[::1]:50051", "[fe80::1%eth0]:1"] {
        let t = Target::parse_addr(addr).unwrap();
        assert_eq!(t.to_string(), addr);
        let again = Target::parse_addr(&t.to_string()).unwrap();
        assert_eq!(again.host(), t.host());
        assert_eq!(again.to_string(), t.to_string());
    }
}

#[test]
fn brackets_around_a_name_are_dropped() {
    let t = Target::parse_addr("[name]:80").unwrap();
    assert_eq!(t.host(), "name");
    assert_eq!(t.to_string(), "name:80");
}

#[test]
fn a_leading_plus_and_zeros_do_not_change_the_port() {
    assert_eq!(Target::parse_addr("h:+80").unwrap().to_string(), "h:80");
    assert_eq!(Target::parse_addr("h:0080").unwrap().to_string(), "h:80");
}

#[test]
fn a_clone_is_the_same_target() {
    let t = Target::parse_addr("[::1]:50051").unwrap();
    assert_eq!(t.clone().to_string(), "[::1]:50051");
}

fn addr_error(addr: &str) -> AddrError {
    Target::parse_addr(addr).unwrap_err()
}

#[test]
fn addr_error_variants() {
    assert!(matches!(addr_error(""), AddrError::MissingPort(_)));
    assert!(matches!(addr_error("[::1]"), AddrError::MissingPort(_)));
    assert!(matches!(addr_error("[::1]50051"), AddrError::MissingPort(_)));
    assert!(matches!(addr_error(":80"), AddrError::EmptyHost(_)));
    assert!(matches!(addr_error("[]:80"), AddrError::EmptyHost(_)));
    assert!(matches!(addr_error("h:"), AddrError::InvalidPort(_, _)));
    assert!(matches!(addr_error("h:http"), AddrError::InvalidPort(_, _)));
    assert!(matches!(addr_error("h:65536"), AddrError::InvalidPort(_, _)));
    assert!(matches!(addr_error("h:-1"), AddrError::InvalidPort(_, _)));
    assert!(matches!(addr_error("[::1:80"), AddrError::UnterminatedIpv6(_)));
    assert!(matches!(addr_error("a:b:c"), AddrError::UnbracketedIpv6(_)));
}

#[test]
fn addr_errors_say_what_is_wrong() {
    assert_eq!(
        addr_error("example.test").to_string(),
        "address \"example.test\" must be host:port (the port is required)"
    );
    assert_eq!(
        addr_error(":80").to_string(),
        "address \":80\" has an empty host"
    );
    assert_eq!(
        addr_error("h:").to_string(),
        "address \"h:\" has an invalid port: cannot parse integer from empty string"
    );
    assert_eq!(
        addr_error("h:x").to_string(),
        "address \"h:x\" has an invalid port: invalid digit found in string"
    );
    assert_eq!(
        addr_error("h:65536").to_string(),
        "address \"h:65536\" has an invalid port: number too large to fit in target type"
    );
    assert_eq!(
        addr_error("[::1").to_string(),
        "address \"[::1\" has an unterminated IPv6 literal (missing ']')"
    );
    assert_eq!(
        addr_error("::1:80").to_string(),
        "address \"::1:80\" looks like an IPv6 literal; wrap it in brackets: [host]:port"
    );
}

#[test]
fn rejected_text_is_quoted_and_escaped() {
    assert_eq!(
        addr_error("a\n\"b").to_string(),
        "address \"a\\n\\\"b\" must be host:port (the port is required)"
    );
}
