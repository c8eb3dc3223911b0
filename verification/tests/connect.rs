use tokio_tungstenite::connect::{
    choose_connector, connect_address, connect_port, domain, request_address, request_connector, request_is_secure,
    request_target_port, ConnectError, Connector,
};
use tokio_tungstenite::extensions::AsyncDeflate;
use tokio_tungstenite::stream::Stream;
use tungstenite::client::IntoClientRequest;

#[test]
fn ports_default_by_scheme() {
    assert_eq!(connect_port(None, Some("wss")), Ok(443));
    assert_eq!(connect_port(None, Some("ws")), Ok(80));
    assert_eq!(connect_port(Some(9001), Some("ws")), Ok(9001));
    assert_eq!(connect_port(None, Some("http")), Err(ConnectError::UnsupportedUrlScheme));
    assert_eq!(connect_port(None, None), Err(ConnectError::UnsupportedUrlScheme));
}

#[test]
fn addresses() {
    assert_eq!(connect_address(Some("example.com"), None, Some("wss")), Ok(b"example.com:443".to_vec()));
    assert_eq!(connect_address(None, Some(1), Some("ws")), Err(ConnectError::NoHostName));
    assert_eq!(connect_address(Some("h"), None, Some("ftp")), Err(ConnectError::UnsupportedUrlScheme));
}

#[test]
fn addresses_from_requests() {
    let req = "ws://127.0.0.1:9001".into_client_request().unwrap();
    assert_eq!(request_address(&req), Ok(b"127.0.0.1:9001".to_vec()));
    assert_eq!(domain(&req), Ok("127.0.0.1".to_string()));
    let req = "wss://example.com/chat".into_client_request().unwrap();
    assert_eq!(request_address(&req), Ok(b"example.com:443".to_vec()));
    let req = "ws://localhost:12345/".into_client_request().unwrap();
    assert_eq!(request_address(&req), Ok(b"localhost:12345".to_vec()));
}

#[test]
fn deflate_and_stream_values() {
    assert_eq!(AsyncDeflate::new(Some(64 << 20)), AsyncDeflate::default());
    let s: Stream<u8, u16> = Stream::Plain(1);
    assert!(matches!(s, Stream::Plain(1)));
}

#[test]
fn connectors_and_ports_from_requests() {
    let ws = "ws://example.com/".into_client_request().unwrap();
    let wss = "wss://example.com:8443/".into_client_request().unwrap();
    assert_eq!(request_connector(&ws, None), Ok(Connector::Plain));
    assert_eq!(request_connector(&wss, None), Err(ConnectError::TlsFeatureNotEnabled));
    assert_eq!(request_connector(&wss, Some(Connector::Plain)), Ok(Connector::Plain));
    assert_eq!(request_target_port(&ws), Ok(80));
    assert_eq!(request_target_port(&wss), Ok(8443));
    assert!(!request_is_secure(&ws));
    assert!(request_is_secure(&wss));
    assert_eq!(choose_connector(Some("http"), Some(Connector::Plain)), Err(ConnectError::UnsupportedUrlScheme));
    assert_eq!(choose_connector(None, None), Err(ConnectError::UnsupportedUrlScheme));
    assert_eq!(domain(&wss), Ok("example.com".to_string()));
}
