use msedge_tts::error::{HttpProxyError, ProxyError, Socks4ProxyError, Socks5ProxyError};
use msedge_tts::proxy::{
    build_http_proxy_request, build_socks4_connection_request,
    build_socks5_authentication_request, build_socks5_connection_request, build_socks5_greeting,
    evaluate_connect_response, http_proxy_plan, ip_equal, parse_socks4_reply,
    parse_socks5_auth_reply, parse_socks5_bound_v4, parse_socks5_bound_v6, parse_socks5_choice,
    parse_socks5_reply_header, response_complete, select_proxy_protocol, socks4_endpoint,
    socks4_request_kind, socks5_endpoint, socks5_request_kind, socks5_should_reconnect,
    IpAddress, ProxyProtocol, Socks4Kind, Socks5AddrKind, Socks5Kind,
};

#[test]
fn socks5_greeting_offers_exactly_the_right_methods() {
    assert_eq!(build_socks5_greeting(true), vec![0x05, 0x02, 0x00, 0x02]);
    assert_eq!(build_socks5_greeting(false), vec![0x05, 0x01, 0x00]);
}

#[test]
fn socks5_choice_of_unoffered_method_is_an_error() {
    assert_eq!(parse_socks5_choice(&[0x05, 0x00], false), Ok(0x00));
    assert_eq!(parse_socks5_choice(&[0x05, 0x02], true), Ok(0x02));
    assert_eq!(
        parse_socks5_choice(&[0x05, 0x02], false),
        Err(Socks5ProxyError::BadServerChoice(0x02))
    );
    assert_eq!(
        parse_socks5_choice(&[0x05, 0x01], true),
        Err(Socks5ProxyError::BadServerChoice(0x01))
    );
    assert_eq!(
        parse_socks5_choice(&[0x04, 0x00], true),
        Err(Socks5ProxyError::BadResponseVersion(0x04))
    );
}

#[test]
fn connect_request_with_credentials_is_exact() {
    let r = build_http_proxy_request("example.com", Some("user"), Some("pass"));
    assert_eq!(
        r,
        "CONNECT example.com:443 HTTP/1.1\r\nHost: example.com:443\r\nProxy-Authorization: Basic dXNlcjpwYXNz\r\nProxy-Connection: Keep-Alive\r\n\r\n"
    );
}

#[test]
fn connect_request_without_credentials_is_exact() {
    let r = build_http_proxy_request("example.com", None, None);
    assert_eq!(
        r,
        "CONNECT example.com:443 HTTP/1.1\r\nHost: example.com:443\r\nProxy-Connection: Keep-Alive\r\n\r\n"
    );
    // One credential alone does not count.
    let r = build_http_proxy_request("example.com", Some("user"), None);
    assert!(!r.contains("Proxy-Authorization"));
}

#[test]
fn connect_response_407_surfaces_code_and_reason() {
    let r = evaluate_connect_response(b"HTTP/1.1 407 Proxy Authentication Required\r\n\r\n");
    assert_eq!(
        r,
        Err(HttpProxyError::BadResponse(407, "Proxy Authentication Required".to_string()))
    );
}

#[test]
fn connect_response_200_succeeds() {
    let r = evaluate_connect_response(b"HTTP/1.1 200 Connection Established\r\n\r\n");
    assert_eq!(r, Ok(()));
}

#[test]
fn connect_response_without_status_or_malformed() {
    // An incomplete head parses but has no status code yet.
    let r = evaluate_connect_response(b"HTTP/1.1 ");
    assert_eq!(r, Err(HttpProxyError::NoStatusCode));
    // Bytes that are no HTTP response head at all.
    let r = evaluate_connect_response(b"\xff\xfe\xfd");
    assert!(matches!(r, Err(HttpProxyError::InvalidResponse(_))));
}

#[test]
fn response_terminator_detection() {
    let buf = b"HTTP/1.1 200 OK\r\n\r\n";
    assert!(response_complete(buf, buf.len()));
    assert!(!response_complete(buf, buf.len() - 1));
    assert!(!response_complete(b"abc", 3));
}

#[test]
fn socks4_request_with_resolved_address() {
    let r = build_socks4_connection_request("example.com", Some([1, 2, 3, 4]), Some("me"));
    assert_eq!(r, vec![0x04, 0x01, 0x01, 0xbb, 1, 2, 3, 4, b'm', b'e', 0x00]);
}

#[test]
fn socks4a_request_defers_resolution() {
    let r = build_socks4_connection_request("ex.io", None, None);
    let mut expected = vec![0x04, 0x01, 0x01, 0xbb, 0x00, 0x00, 0x00, 0x01, 0x00];
    expected.extend(b"ex.io");
    expected.push(0x00);
    assert_eq!(r, expected);
}

#[test]
fn socks4_reply_codes() {
    assert_eq!(parse_socks4_reply(&[0, 0x5a, 0, 0, 0, 0, 0, 0]), Ok(()));
    assert_eq!(
        parse_socks4_reply(&[0, 0x5b, 0, 0, 0, 0, 0, 0]),
        Err(Socks4ProxyError::RequestRejectedOrFailed(0x5b))
    );
    assert_eq!(
        parse_socks4_reply(&[0, 0x5c, 0, 0, 0, 0, 0, 0]),
        Err(Socks4ProxyError::NoneAvailableIdentdService(0x5c))
    );
    assert_eq!(
        parse_socks4_reply(&[0, 0x5d, 0, 0, 0, 0, 0, 0]),
        Err(Socks4ProxyError::IdentdCheckFailed(0x5d))
    );
    assert_eq!(
        parse_socks4_reply(&[0, 0x07, 0, 0, 0, 0, 0, 0]),
        Err(Socks4ProxyError::UnknownReplyCode(0x07))
    );
}

#[test]
fn socks5_auth_request_layout() {
    assert_eq!(
        build_socks5_authentication_request("user", "pass"),
        vec![0x01, 4, b'u', b's', b'e', b'r', 4, b'p', b'a', b's', b's']
    );
    // Empty credentials are encoded as a single NUL with length 1.
    assert_eq!(
        build_socks5_authentication_request("", ""),
        vec![0x01, 0x01, 0x00, 0x01, 0x00]
    );
}

#[test]
fn socks5_auth_reply_codes() {
    assert_eq!(parse_socks5_auth_reply(&[0x05, 0x00]), Ok(()));
    assert_eq!(
        parse_socks5_auth_reply(&[0x05, 0x01]),
        Err(Socks5ProxyError::ClientAuthenticationFailed(0x05, 0x01))
    );
    assert_eq!(
        parse_socks5_auth_reply(&[0x01, 0x00]),
        Err(Socks5ProxyError::BadResponseVersion(0x01))
    );
}

#[test]
fn socks5_connect_request_layouts() {
    assert_eq!(
        build_socks5_connection_request("h", Some(IpAddress::V4([9, 8, 7, 6]))),
        vec![0x05, 0x01, 0x00, 0x01, 9, 8, 7, 6, 0x01, 0xbb]
    );
    let v6 = IpAddress::V6([0, 1, 2, 3, 4, 5, 6, 7, 8, 9, 10, 11, 12, 13, 14, 15]);
    let r = build_socks5_connection_request("h", Some(v6));
    assert_eq!(&r[..4], &[0x05, 0x01, 0x00, 0x04]);
    assert_eq!(&r[4..20], &[0, 1, 2, 3, 4, 5, 6, 7, 8, 9, 10, 11, 12, 13, 14, 15]);
    assert_eq!(&r[20..], &[0x01, 0xbb]);
    let mut expected = vec![0x05, 0x01, 0x00, 0x03, 5];
    expected.extend(b"ex.io");
    expected.extend([0x01, 0xbb]);
    assert_eq!(build_socks5_connection_request("ex.io", None), expected);
}

#[test]
fn socks5_reply_header_statuses() {
    assert_eq!(parse_socks5_reply_header(&[5, 0, 0, 1]), Ok(Socks5AddrKind::V4));
    assert_eq!(parse_socks5_reply_header(&[5, 0, 0, 4]), Ok(Socks5AddrKind::V6));
    assert_eq!(Socks5AddrKind::V4.tail_len(), 6);
    assert_eq!(Socks5AddrKind::V6.tail_len(), 18);
    assert_eq!(
        parse_socks5_reply_header(&[5, 0, 0, 3]),
        Err(Socks5ProxyError::NotSupportedServerBindAddressType(3))
    );
    assert_eq!(parse_socks5_reply_header(&[5, 1, 0, 1]), Err(Socks5ProxyError::GeneralFailure(1)));
    assert_eq!(
        parse_socks5_reply_header(&[5, 2, 0, 1]),
        Err(Socks5ProxyError::ConnectionNotAllowedByRules(2))
    );
    assert_eq!(
        parse_socks5_reply_header(&[5, 3, 0, 1]),
        Err(Socks5ProxyError::NetworkUnreachable(3))
    );
    assert_eq!(parse_socks5_reply_header(&[5, 4, 0, 1]), Err(Socks5ProxyError::HostUnreachable(4)));
    assert_eq!(
        parse_socks5_reply_header(&[5, 5, 0, 1]),
        Err(Socks5ProxyError::ConnectionRefused(5))
    );
    assert_eq!(parse_socks5_reply_header(&[5, 6, 0, 1]), Err(Socks5ProxyError::TtlExpired(6)));
    assert_eq!(
        parse_socks5_reply_header(&[5, 7, 0, 1]),
        Err(Socks5ProxyError::CommandNotSupported(7))
    );
    assert_eq!(
        parse_socks5_reply_header(&[5, 8, 0, 1]),
        Err(Socks5ProxyError::AddressTypeNotSupported(8))
    );
    assert_eq!(parse_socks5_reply_header(&[5, 9, 0, 1]), Err(Socks5ProxyError::UnknownReplyCode(9)));
}

#[test]
fn socks5_bound_address_parsing() {
    let (ip, port) = parse_socks5_bound_v4(&[127, 0, 0, 1, 0x01, 0xbb]);
    assert_eq!(ip, IpAddress::V4([127, 0, 0, 1]));
    assert_eq!(port, 443);
    let (ip6, port6) = parse_socks5_bound_v6(&[0, 0, 0, 0, 0, 0, 0, 0, 0, 0, 0, 0, 0, 0, 0, 1, 0x1f, 0x90]);
    assert_eq!(ip6, IpAddress::V6([0, 0, 0, 0, 0, 0, 0, 0, 0, 0, 0, 0, 0, 0, 0, 1]));
    assert_eq!(port6, 8080);
}

#[test]
fn reconnect_only_on_differing_bound_address() {
    let a = IpAddress::V4([1, 2, 3, 4]);
    let b = IpAddress::V4([1, 2, 3, 5]);
    assert!(ip_equal(&a, &a));
    assert!(!ip_equal(&a, &b));
    assert!(!socks5_should_reconnect(&a, 443, &a, 443));
    assert!(socks5_should_reconnect(&a, 443, &b, 443));
    assert!(socks5_should_reconnect(&a, 443, &a, 444));
    assert!(socks5_should_reconnect(&a, 443, &IpAddress::V6([0; 16]), 443));
}

#[test]
fn scheme_selects_protocol_case_insensitively() {
    assert_eq!(select_proxy_protocol(None, "x"), Ok(ProxyProtocol::Http));
    assert_eq!(select_proxy_protocol(Some("SOCKS5"), "x"), Ok(ProxyProtocol::Socks5));
    assert_eq!(select_proxy_protocol(Some("socks5h"), "x"), Ok(ProxyProtocol::Socks5));
    assert_eq!(select_proxy_protocol(Some("Socks4a"), "x"), Ok(ProxyProtocol::Socks4));
    assert_eq!(select_proxy_protocol(Some("https"), "x"), Ok(ProxyProtocol::Http));
    assert_eq!(
        select_proxy_protocol(Some("ftp"), "ftp://p"),
        Err(ProxyError::NotSupportedScheme("ftp://p".to_string()))
    );
}

#[test]
fn socks_request_kinds() {
    assert_eq!(socks4_request_kind("socks4", "u"), Ok(Socks4Kind::Resolve));
    assert_eq!(socks4_request_kind("SOCKS4A", "u"), Ok(Socks4Kind::Defer));
    assert_eq!(
        socks4_request_kind("socks5", "u"),
        Err(Socks4ProxyError::NotSupportedScheme("u".to_string()))
    );
    assert_eq!(socks5_request_kind("socks5", "u"), Ok(Socks5Kind::Resolve));
    assert_eq!(socks5_request_kind("socks5H", "u"), Ok(Socks5Kind::Defer));
    assert_eq!(
        socks5_request_kind("socks4", "u"),
        Err(Socks5ProxyError::NotSupportedScheme("u".to_string()))
    );
}

#[test]
fn http_proxy_plan_validation_and_defaults() {
    let err = http_proxy_plan(None, None, None, "u");
    assert!(matches!(err, Err(HttpProxyError::NoProxyServerHostName(u)) if u == "u"));
    let err = http_proxy_plan(None, Some(""), None, "u");
    assert!(matches!(err, Err(HttpProxyError::EmptyProxyServerHostName(u)) if u == "u"));
    let err = http_proxy_plan(Some("gopher"), Some("h"), None, "u");
    assert!(matches!(err, Err(HttpProxyError::NotSupportedScheme(u)) if u == "u"));
    let plan = http_proxy_plan(Some("http"), Some("h"), None, "u").unwrap();
    assert_eq!((plan.host.as_str(), plan.port, plan.use_tls), ("h", 80, false));
    let plan = http_proxy_plan(Some("HTTPS"), Some("h"), None, "u").unwrap();
    assert_eq!((plan.host.as_str(), plan.port, plan.use_tls), ("h", 443, true));
    let plan = http_proxy_plan(None, Some("h"), Some(3128), "u").unwrap();
    assert_eq!((plan.host.as_str(), plan.port, plan.use_tls), ("h", 3128, false));
}

#[test]
fn socks_endpoint_validation() {
    assert!(matches!(
        socks4_endpoint(None, Some("h"), Some(1), "u"),
        Err(Socks4ProxyError::NoScheme(_))
    ));
    assert!(matches!(
        socks4_endpoint(Some("socks4"), None, Some(1), "u"),
        Err(Socks4ProxyError::NoProxyServerHostName(_))
    ));
    assert!(matches!(
        socks4_endpoint(Some("socks4"), Some(""), Some(1), "u"),
        Err(Socks4ProxyError::EmptyProxyServerHostName(_))
    ));
    assert!(matches!(
        socks4_endpoint(Some("socks4"), Some("h"), None, "u"),
        Err(Socks4ProxyError::NoProxyServerPort(_))
    ));
    assert_eq!(socks4_endpoint(Some("socks4"), Some("h"), Some(1080), "u"), Ok(("h".to_string(), 1080)));
    assert!(matches!(
        socks5_endpoint(None, Some("h"), Some(1), "u"),
        Err(Socks5ProxyError::NoScheme(_))
    ));
    assert_eq!(socks5_endpoint(Some("socks5"), Some("h"), Some(1080), "u"), Ok(("h".to_string(), 1080)));
}
