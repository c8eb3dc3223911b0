//! Tunnels through HTTP and SOCKS5 proxies: the configuration, the errors a proxy can
//! answer with, the wire messages of both protocols, and the handshake that drives them.
pub mod env;
pub mod http;
pub mod socks5;
pub mod tunnel;

use vstd::prelude::*;
use vstd::utf8::*;
use crate::bytes::push_all;

verus! {

/// The protocol spoken with the proxy.
#[derive(Debug, PartialEq, Eq, Structural, Clone, Copy)]
pub enum ProxyScheme {
    /// HTTP `CONNECT`.
    Http,
    /// SOCKS5, with the target name resolved locally or sent as a name.
    Socks5,
    /// SOCKS5 with the target name resolved by the proxy.
    Socks5h,
}

/// Credentials for the proxy.
pub struct ProxyAuth {
    /// User name.
    pub username: String,
    /// Password.
    pub password: String,
}

/// Where the proxy is and how to talk to it.
pub struct ProxyConfig {
    /// The protocol of the proxy.
    pub scheme: ProxyScheme,
    /// Host name of the proxy.
    pub host: String,
    /// Port of the proxy.
    pub port: u16,
    /// Credentials, if the proxy wants them.
    pub auth: Option<ProxyAuth>,
}

/// The octets of a target host that is written as an IP address literal.
#[derive(Debug, PartialEq, Eq, Clone, Copy)]
pub enum HostAddr {
    /// An IPv4 address.
    V4([u8; 4]),
    /// An IPv6 address.
    V6([u8; 16]),
}

/// Why a proxy tunnel could not be established.
#[derive(Debug, PartialEq, Eq, Structural, Clone, Copy)]
pub enum ProxyError {
    /// The answer to `CONNECT` grew to the size limit before its head ended.
    ResponseTooLarge,
    /// The answer to `CONNECT` does not start with an HTTP/1.x status line.
    MalformedResponse,
    /// The proxy answered `CONNECT` with a status outside `200..300`.
    HttpStatus(u16),
    /// A SOCKS5 answer carries the wrong version byte.
    InvalidVersion,
    /// The SOCKS5 proxy asked for credentials, but none are configured.
    AuthRequired,
    /// The SOCKS5 proxy accepted none of the offered authentication methods.
    NoAcceptableMethod,
    /// The SOCKS5 proxy chose an authentication method that was not offered.
    UnsupportedMethod,
    /// The user name or the password is longer than 255 bytes.
    CredentialsTooLong,
    /// The SOCKS5 proxy rejected the credentials.
    AuthFailed,
    /// The target host name is longer than 255 bytes.
    DomainTooLong,
    /// The SOCKS5 proxy refused the connection with this reply code.
    ConnectFailed(u8),
    /// The SOCKS5 reply names an unknown address type.
    InvalidAddressType,
    /// The proxy URL taken from the environment cannot be read.
    InvalidProxyUrl,
}

/// Credentials as the bytes that go on the wire.
pub struct Credentials {
    /// User name, UTF-8.
    pub username: Vec<u8>,
    /// Password, UTF-8.
    pub password: Vec<u8>,
}

impl View for Credentials {
    type V = (Seq<u8>, Seq<u8>);

    open spec fn view(&self) -> (Seq<u8>, Seq<u8>) {
        (self.username@, self.password@)
    }
}

/// The wire form of configured credentials.
pub open spec fn credentials_of(auth: Option<ProxyAuth>) -> Option<(Seq<u8>, Seq<u8>)> {
    match auth {
        Some(a) => Some((encode_utf8(a.username@), encode_utf8(a.password@))),
        None => None,
    }
}

/// The view of optional credentials.
pub open spec fn credentials_view(c: Option<Credentials>) -> Option<(Seq<u8>, Seq<u8>)> {
    match c {
        Some(c) => Some(c@),
        None => None,
    }
}

impl Credentials {
    /// The UTF-8 bytes of the user name and the password of `auth`.
    pub fn from_auth(auth: &ProxyAuth) -> (res: Credentials)
        ensures
            credentials_of(Some(*auth)) == Some(res@),
    {
        let mut username: Vec<u8> = Vec::new();
        push_all(&mut username, auth.username.as_str().as_bytes());
        let mut password: Vec<u8> = Vec::new();
        push_all(&mut password, auth.password.as_str().as_bytes());
        Credentials { username, password }
    }

    /// The wire form of optional credentials.
    pub fn from_optional(auth: &Option<ProxyAuth>) -> (res: Option<Credentials>)
        ensures
            credentials_view(res) == credentials_of(*auth),
    {
        match auth {
            Some(a) => Some(Credentials::from_auth(a)),
            None => None,
        }
    }
}

} // verus!
