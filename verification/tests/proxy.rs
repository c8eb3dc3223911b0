use tokio_tungstenite::bytes::{authority_bytes, contains_head_terminator, push_base64};
use tokio_tungstenite::proxy::http::{
    build_http_connect_request, check_http_connect_response, check_http_connect_status,
    parse_http_connect_response,
};
use tokio_tungstenite::proxy::socks5::{
    socks5_check_auth_reply, socks5_check_connect_reply, socks5_connect_request, socks5_greeting,
    socks5_method_choice, socks5_userpass_request, BoundAddress, Socks5Method,
};
use tokio_tungstenite::proxy::tunnel::{ProxyTunnel, TunnelAction, TunnelPhase};
use tokio_tungstenite::proxy::{Credentials, HostAddr, ProxyAuth, ProxyConfig, ProxyError, ProxyScheme};

fn config(scheme: ProxyScheme, auth: Option<(&str, &str)>) -> ProxyConfig {
    config_at(scheme, "proxy.local", 3128, auth)
}

fn config_at(scheme: ProxyScheme, host: &str, port: u16, auth: Option<(&str, &str)>) -> ProxyConfig {
    ProxyConfig {
        scheme,
        host: host.to_string(),
        port,
        auth: auth.map(|(u, p)| ProxyAuth { username: u.to_string(), password: p.to_string() }),
    }
}

fn contains(haystack: &[u8], needle: &str) -> bool {
    haystack.windows(needle.len()).any(|w| w == needle.as_bytes())
}

#[test]
fn http_connect_handshake() {
    let proxy = config(ProxyScheme::Http, Some(("user", "pass")));
    let mut tunnel = ProxyTunnel::new(&proxy, "example.com", None, 443);
    let request = match tunnel.start() {
        TunnelAction::Send(bytes) => bytes,
        other => panic!("unexpected {:?}", other),
    };
    let text = std::str::from_utf8(&request).unwrap();
    assert!(text.contains("CONNECT example.com:443 HTTP/1.1"));
    assert!(text.contains("Proxy-Authorization: Basic dXNlcjpwYXNz"));
    assert_eq!(tunnel.sent(), TunnelAction::ReadSome(512));
    let answer = b"HTTP/1.1 200 Connection Established\r\n\r\n";
    assert_eq!(tunnel.received(answer), TunnelAction::Established);
    assert_eq!(tunnel.phase(), TunnelPhase::Established);
}

#[test]
fn socks5_handshake() {
    let proxy = config_at(ProxyScheme::Socks5, "proxy.local", 1080, None);
    let mut tunnel = ProxyTunnel::new(&proxy, "example.com", None, 443);
    assert_eq!(tunnel.start(), TunnelAction::Send(vec![0x05, 0x01, 0x00]));
    assert_eq!(tunnel.sent(), TunnelAction::ReadExact(2));
    let connect = match tunnel.received(&[0x05, 0x00]) {
        TunnelAction::Send(bytes) => bytes,
        other => panic!("unexpected {:?}", other),
    };
    assert_eq!(connect[0], 0x05);
    assert_eq!(connect[1], 0x01);
    assert_eq!(connect[2], 0x00);
    assert_eq!(tunnel.sent(), TunnelAction::ReadExact(4));
    assert_eq!(tunnel.received(&[0x05, 0x00, 0x00, 0x01]), TunnelAction::ReadExact(6));
    assert_eq!(tunnel.received(&[0, 0, 0, 0, 0, 0]), TunnelAction::Established);
}

#[test]
fn http_connect_without_credentials_has_no_authorization() {
    let proxy = config(ProxyScheme::Http, None);
    let mut tunnel = ProxyTunnel::new(&proxy, "example.com", None, 80);
    let request = match tunnel.start() {
        TunnelAction::Send(bytes) => bytes,
        other => panic!("unexpected {:?}", other),
    };
    assert_eq!(request, b"CONNECT example.com:80 HTTP/1.1\r\nHost: example.com:80\r\n\r\n".to_vec());
}

#[test]
fn http_connect_request_exact_bytes() {
    let creds = Some(Credentials { username: b"user".to_vec(), password: b"pass".to_vec() });
    let req = build_http_connect_request(b"example.com:443", &creds);
    assert_eq!(
        req,
        b"CONNECT example.com:443 HTTP/1.1\r\nHost: example.com:443\r\nProxy-Authorization: Basic dXNlcjpwYXNz\r\n\r\n".to_vec()
    );
}

#[test]
fn http_connect_refused_status() {
    let proxy = config(ProxyScheme::Http, None);
    let mut tunnel = ProxyTunnel::new(&proxy, "example.com", None, 443);
    tunnel.start();
    tunnel.sent();
    let answer = b"HTTP/1.1 407 Proxy Authentication Required\r\n\r\n";
    assert_eq!(tunnel.received(answer), TunnelAction::Failed(ProxyError::HttpStatus(407)));
    assert_eq!(tunnel.phase(), TunnelPhase::Failed);
}

#[test]
fn http_connect_answer_in_pieces() {
    let proxy = config(ProxyScheme::Http, None);
    let mut tunnel = ProxyTunnel::new(&proxy, "example.com", None, 443);
    tunnel.start();
    tunnel.sent();
    assert_eq!(tunnel.received(b"HTTP/1.0 204 No Content\r\n"), TunnelAction::ReadSome(512));
    assert_eq!(tunnel.received(b"X: y\r\n"), TunnelAction::ReadSome(512));
    assert_eq!(tunnel.received(b"\r\n"), TunnelAction::Established);
}

#[test]
fn http_connect_end_of_stream_decides_on_what_was_read() {
    let proxy = config(ProxyScheme::Http, None);
    let mut tunnel = ProxyTunnel::new(&proxy, "example.com", None, 443);
    tunnel.start();
    tunnel.sent();
    assert_eq!(tunnel.received(b"HTTP/1.1 200 OK\r\n"), TunnelAction::ReadSome(512));
    assert_eq!(tunnel.received(b""), TunnelAction::Established);

    let mut tunnel = ProxyTunnel::new(&proxy, "example.com", None, 443);
    tunnel.start();
    tunnel.sent();
    assert_eq!(tunnel.received(b""), TunnelAction::Failed(ProxyError::MalformedResponse));
}

#[test]
fn http_connect_response_too_large() {
    let proxy = config(ProxyScheme::Http, None);
    let mut tunnel = ProxyTunnel::new(&proxy, "example.com", None, 443);
    tunnel.start();
    tunnel.sent();
    let chunk = vec![b'a'; 512];
    for _ in 0..15 {
        assert_eq!(tunnel.received(&chunk), TunnelAction::ReadSome(512));
    }
    assert_eq!(tunnel.received(&chunk), TunnelAction::Failed(ProxyError::ResponseTooLarge));
}

#[test]
fn http_status_parsing() {
    assert_eq!(parse_http_connect_response(b"HTTP/1.1 200 Connection Established\r\n\r\n"), Some(200));
    assert_eq!(parse_http_connect_response(b"HTTP/1.0 502\r\n\r\n"), Some(502));
    assert_eq!(parse_http_connect_response(b"HTTP/2.0 200 OK\r\n\r\n"), None);
    assert_eq!(parse_http_connect_response(b"HTTP/1.1 20x OK\r\n"), None);
    assert_eq!(parse_http_connect_response(b"HTTP/1.1 200"), None);
    assert_eq!(check_http_connect_status(299), Ok(()));
    assert_eq!(check_http_connect_status(300), Err(ProxyError::HttpStatus(300)));
    assert_eq!(check_http_connect_status(199), Err(ProxyError::HttpStatus(199)));
    assert_eq!(check_http_connect_response(b"garbage\r\n\r\n"), Err(ProxyError::MalformedResponse));
}

#[test]
fn socks5_with_credentials() {
    let proxy = config(ProxyScheme::Socks5h, Some(("user", "pass")));
    let mut tunnel = ProxyTunnel::new(&proxy, "example.com", None, 8080);
    assert_eq!(tunnel.start(), TunnelAction::Send(vec![5, 2, 0, 2]));
    assert_eq!(tunnel.sent(), TunnelAction::ReadExact(2));
    assert_eq!(
        tunnel.received(&[5, 2]),
        TunnelAction::Send(vec![1, 4, b'u', b's', b'e', b'r', 4, b'p', b'a', b's', b's'])
    );
    assert_eq!(tunnel.sent(), TunnelAction::ReadExact(2));
    let mut expected = vec![5, 1, 0, 3, 11];
    expected.extend_from_slice(b"example.com");
    expected.extend_from_slice(&[0x1f, 0x90]);
    assert_eq!(tunnel.received(&[1, 0]), TunnelAction::Send(expected));
    assert_eq!(tunnel.sent(), TunnelAction::ReadExact(4));
    assert_eq!(tunnel.received(&[5, 0, 0, 3]), TunnelAction::ReadExact(1));
    assert_eq!(tunnel.received(&[7]), TunnelAction::ReadExact(9));
    assert_eq!(tunnel.received(&[0; 9]), TunnelAction::Established);
}

#[test]
fn socks5_auth_rejected() {
    let proxy = config(ProxyScheme::Socks5, Some(("user", "pass")));
    let mut tunnel = ProxyTunnel::new(&proxy, "example.com", None, 443);
    tunnel.start();
    tunnel.sent();
    tunnel.received(&[5, 2]);
    tunnel.sent();
    assert_eq!(tunnel.received(&[1, 1]), TunnelAction::Failed(ProxyError::AuthFailed));
}

#[test]
fn socks5_method_errors() {
    assert_eq!(socks5_method_choice(&[4, 0], false), Err(ProxyError::InvalidVersion));
    assert_eq!(socks5_method_choice(&[5, 0], false), Ok(Socks5Method::NoAuth));
    assert_eq!(socks5_method_choice(&[5, 2], true), Ok(Socks5Method::UsernamePassword));
    assert_eq!(socks5_method_choice(&[5, 2], false), Err(ProxyError::AuthRequired));
    assert_eq!(socks5_method_choice(&[5, 0xFF], true), Err(ProxyError::NoAcceptableMethod));
    assert_eq!(socks5_method_choice(&[5, 1], true), Err(ProxyError::UnsupportedMethod));
}

#[test]
fn socks5_reply_errors() {
    assert_eq!(socks5_check_connect_reply(&[4, 0, 0, 1]), Err(ProxyError::InvalidVersion));
    assert_eq!(socks5_check_connect_reply(&[5, 5, 0, 1]), Err(ProxyError::ConnectFailed(5)));
    assert_eq!(socks5_check_connect_reply(&[5, 0, 0, 9]), Err(ProxyError::InvalidAddressType));
    assert_eq!(socks5_check_connect_reply(&[5, 0, 0, 1]), Ok(BoundAddress::Fixed(4)));
    assert_eq!(socks5_check_connect_reply(&[5, 0, 0, 4]), Ok(BoundAddress::Fixed(16)));
    assert_eq!(socks5_check_connect_reply(&[5, 0, 0, 3]), Ok(BoundAddress::LengthPrefixed));
    assert_eq!(socks5_check_auth_reply(&[1, 0]), Ok(()));
    assert_eq!(socks5_check_auth_reply(&[0, 0]), Err(ProxyError::AuthFailed));
}

#[test]
fn socks5_connect_request_addresses() {
    assert_eq!(
        socks5_connect_request(b"127.0.0.1", &Some(HostAddr::V4([127, 0, 0, 1])), 443),
        Ok(vec![5, 1, 0, 1, 127, 0, 0, 1, 1, 187])
    );
    let mut v6 = [0u8; 16];
    v6[15] = 1;
    let mut expected = vec![5, 1, 0, 4];
    expected.extend_from_slice(&v6);
    expected.extend_from_slice(&[0, 80]);
    assert_eq!(socks5_connect_request(b"::1", &Some(HostAddr::V6(v6)), 80), Ok(expected));
    let long = vec![b'a'; 256];
    assert_eq!(socks5_connect_request(&long, &None, 80), Err(ProxyError::DomainTooLong));
    let max = vec![b'a'; 255];
    assert_eq!(socks5_connect_request(&max, &None, 80).unwrap().len(), 3 + 2 + 255 + 2);
}

#[test]
fn socks5_credentials_too_long() {
    let creds = Credentials { username: vec![b'u'; 256], password: b"p".to_vec() };
    assert_eq!(socks5_userpass_request(&creds), Err(ProxyError::CredentialsTooLong));
    let creds = Credentials { username: b"u".to_vec(), password: vec![b'p'; 256] };
    assert_eq!(socks5_userpass_request(&creds), Err(ProxyError::CredentialsTooLong));

    let proxy = config(ProxyScheme::Socks5, Some((&"x".repeat(300), "p")));
    let mut tunnel = ProxyTunnel::new(&proxy, "example.com", None, 443);
    tunnel.start();
    tunnel.sent();
    assert_eq!(tunnel.received(&[5, 2]), TunnelAction::Failed(ProxyError::CredentialsTooLong));
}

#[test]
fn socks5_greeting_offers_auth_only_with_credentials() {
    assert_eq!(socks5_greeting(false), vec![5, 1, 0]);
    assert_eq!(socks5_greeting(true), vec![5, 2, 0, 2]);
}

#[test]
fn base64_encoding() {
    let enc = |d: &[u8]| {
        let mut out = Vec::new();
        push_base64(&mut out, d);
        String::from_utf8(out).unwrap()
    };
    assert_eq!(enc(b"user:pass"), "dXNlcjpwYXNz");
    assert_eq!(enc(b""), "");
    assert_eq!(enc(b"f"), "Zg==");
    assert_eq!(enc(b"fo"), "Zm8=");
    assert_eq!(enc(b"foo"), "Zm9v");
    assert_eq!(enc(b"foobar"), "Zm9vYmFy");
    assert_eq!(enc(&[0xfb, 0xff]), "+/8=");
}

#[test]
fn authority_and_terminator() {
    assert_eq!(authority_bytes(b"example.com", 443), b"example.com:443".to_vec());
    assert_eq!(authority_bytes(b"h", 0), b"h:0".to_vec());
    assert_eq!(authority_bytes(b"h", 65535), b"h:65535".to_vec());
    assert!(contains_head_terminator(b"a\r\n\r\nb"));
    assert!(!contains_head_terminator(b"a\r\n\rb\n"));
    assert!(!contains_head_terminator(b"\r\n\r"));
}

fn run_tunnel(proxy: &ProxyConfig, answers: &[&[u8]]) -> Vec<TunnelAction> {
    let mut tunnel = ProxyTunnel::new(proxy, "example.com", None, 443);
    let mut steps = vec![tunnel.start()];
    let mut answers = answers.iter();
    loop {
        let next = match steps.last().unwrap() {
            TunnelAction::Send(_) => tunnel.sent(),
            TunnelAction::ReadExact(_) | TunnelAction::ReadSome(_) => match answers.next() {
                Some(a) => tunnel.received(a),
                None => break,
            },
            _ => break,
        };
        steps.push(next);
    }
    steps
}

#[test]
fn proxy_address_and_socks5_variant_do_not_change_the_handshake() {
    let answers: [&[u8]; 5] = [&[0x05, 0x02], &[0x01, 0x00], &[0x05, 0x00, 0x00, 0x03], &[4], &[b'h', b'o', b's', b't', 0, 80]];
    let a = run_tunnel(&config_at(ProxyScheme::Socks5, "proxy.local", 1080, Some(("u", "p"))), &answers);
    let b = run_tunnel(&config_at(ProxyScheme::Socks5h, "10.0.0.1", 9050, Some(("u", "p"))), &answers);
    assert_eq!(a, b);
    assert_eq!(a.last(), Some(&TunnelAction::Established));
    assert_eq!(a[0], TunnelAction::Send(vec![0x05, 0x02, 0x00, 0x02]));
    let h1 = run_tunnel(&config_at(ProxyScheme::Http, "a", 1, None), &[b"HTTP/1.1 200 OK\r\n\r\n"]);
    let h2 = run_tunnel(&config_at(ProxyScheme::Http, "b", 2, None), &[b"HTTP/1.1 200 OK\r\n\r\n"]);
    assert_eq!(h1, h2);
    assert_eq!(h1.last(), Some(&TunnelAction::Established));
}
