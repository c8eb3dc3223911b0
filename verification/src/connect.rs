//! Which address a WebSocket request connects to: the host of its URI and its port,
//! which defaults to 443 for `wss` and 80 for `ws`.
use vstd::prelude::*;
use vstd::string::*;
use vstd::utf8::encode_utf8;
use crate::bytes::{authority, authority_bytes, bytes_equal, decimal};
use crate::proxy::env::{lemma_port_reads_back, parse_port};

verus! {

/// A client request: an HTTP request without a body.
pub type ClientRequest = tungstenite::http::Request<()>;

/// The HTTP request type of the `http` crate that `tungstenite` re-exports, carried as
/// an opaque value.
#[verifier::external_type_specification]
#[verifier::external_body]
#[verifier::reject_recursive_types(T)]
pub struct ExHttpRequest<T>(tungstenite::http::Request<T>);

/// Why a request gives no address to connect to.
#[derive(Debug, PartialEq, Eq, Structural, Clone, Copy)]
pub enum ConnectError {
    /// The URI has no host.
    NoHostName,
    /// The URI has no port and its scheme is neither `ws` nor `wss`; or, when the
    /// kind of stream is chosen, its scheme is neither of them.
    UnsupportedUrlScheme,
    /// The URI asks for TLS (`wss`) and no TLS connector is available.
    TlsFeatureNotEnabled,
}

/// How the connection to the server is secured. No TLS implementation is built in, so a
/// connection is plain.
#[derive(Debug, PartialEq, Eq, Structural, Clone, Copy)]
pub enum Connector {
    /// Plain (non-TLS) connection.
    Plain,
}

/// The default port of a WebSocket scheme: 443 for `wss`, 80 for `ws`.
pub open spec fn default_port(scheme: Option<Seq<u8>>) -> Option<u16> {
    match scheme {
        Some(s) => if s == "wss".spec_bytes() {
            Some(443u16)
        } else if s == "ws".spec_bytes() {
            Some(80u16)
        } else {
            None
        },
        None => None,
    }
}

/// The port to connect to: the one in the URI, else the scheme's default.
pub open spec fn port_outcome(explicit: Option<u16>, scheme: Option<Seq<u8>>) -> Result<u16, ConnectError> {
    match explicit {
        Some(p) => Ok(p),
        None => match default_port(scheme) {
            Some(p) => Ok(p),
            None => Err(ConnectError::UnsupportedUrlScheme),
        },
    }
}

/// The address `host:port` to connect to, for a URI with these parts.
pub open spec fn address_outcome(host: Option<Seq<u8>>, explicit: Option<u16>, scheme: Option<Seq<u8>>) -> Result<Seq<u8>, ConnectError> {
    match host {
        None => Err(ConnectError::NoHostName),
        Some(h) => match port_outcome(explicit, scheme) {
            Ok(p) => Ok(authority(h, p)),
            Err(e) => Err(e),
        },
    }
}


/// The optional UTF-8 bytes of an optional string.
pub open spec fn opt_bytes(s: Option<&str>) -> Option<Seq<u8>> {
    match s {
        Some(s) => Some(s.spec_bytes()),
        None => None,
    }
}

/// The default port of a WebSocket scheme.
pub fn scheme_default_port(scheme: Option<&str>) -> (res: Option<u16>)
    ensures
        res == default_port(opt_bytes(scheme)),
{
    match scheme {
        Some(s) => {
            if bytes_equal(s.as_bytes(), "wss".as_bytes()) {
                Some(443)
            } else if bytes_equal(s.as_bytes(), "ws".as_bytes()) {
                Some(80)
            } else {
                None
            }
        },
        None => None,
    }
}

/// The port to connect to: the one in the URI, else the default of its scheme.
pub fn connect_port(explicit: Option<u16>, scheme: Option<&str>) -> (res: Result<u16, ConnectError>)
    ensures
        res == port_outcome(explicit, opt_bytes(scheme)),
{
    match explicit {
        Some(p) => Ok(p),
        None => match scheme_default_port(scheme) {
            Some(p) => Ok(p),
            None => Err(ConnectError::UnsupportedUrlScheme),
        },
    }
}

/// The address `host:port` for a URI with these parts.
pub fn connect_address(host: Option<&str>, explicit: Option<u16>, scheme: Option<&str>) -> (res: Result<Vec<u8>, ConnectError>)
    ensures
        match address_outcome(opt_bytes(host), explicit, opt_bytes(scheme)) {
            Ok(a) => res matches Ok(v) && v@ == a,
            Err(e) => res == Err::<Vec<u8>, ConnectError>(e),
        },
{
    match host {
        None => Err(ConnectError::NoHostName),
        Some(h) => match connect_port(explicit, scheme) {
            Ok(p) => {
                Ok(authority_bytes(h.as_bytes(), p))
            },
            Err(e) => Err(e),
        },
    }
}

/// The UTF-8 bytes of an optional text.
pub open spec fn opt_utf8(s: Option<Seq<char>>) -> Option<Seq<u8>> {
    match s {
        Some(s) => Some(encode_utf8(s)),
        None => None,
    }
}

/// The characters of an optional string.
pub open spec fn opt_string_view(s: Option<String>) -> Option<Seq<char>> {
    match s {
        Some(s) => Some(s@),
        None => None,
    }
}

/// The host of the URI of `request` (`http::Uri::host`): a function of the request.
pub uninterp spec fn uri_host(request: ClientRequest) -> Option<Seq<char>>;

/// The explicit port of the URI of `request` (`http::Uri::port_u16`): a function of
/// the request.
pub uninterp spec fn uri_port(request: ClientRequest) -> Option<u16>;

/// The scheme of the URI of `request` (`http::Uri::scheme_str`): a function of the
/// request.
pub uninterp spec fn uri_scheme(request: ClientRequest) -> Option<Seq<char>>;

/// The host of the request's URI, as `http::Uri::host` gives it, copied into a
/// `String`. The contract claims only that the result is the one named `uri_host` of
/// the request: `Uri::host` reads the parsed URI and nothing else.
#[verifier::external_body]
fn request_host(request: &ClientRequest) -> (res: Option<String>)
    ensures
        opt_string_view(res) == uri_host(*request),
{
    match request.uri().host() {
        Some(h) => Some(h.to_owned()),
        None => None,
    }
}

/// The explicit port of the request's URI, as `http::Uri::port_u16` gives it. The
/// contract claims only that the result is the one named `uri_port` of the request.
#[verifier::external_body]
fn request_port(request: &ClientRequest) -> (res: Option<u16>)
    ensures
        res == uri_port(*request),
{
    request.uri().port_u16()
}

/// The scheme of the request's URI, as `http::Uri::scheme_str` gives it, copied into a
/// `String`. The contract claims only that the result is the one named `uri_scheme` of
/// the request.
#[verifier::external_body]
fn request_scheme(request: &ClientRequest) -> (res: Option<String>)
    ensures
        opt_string_view(res) == uri_scheme(*request),
{
    match request.uri().scheme_str() {
        Some(s) => Some(s.to_owned()),
        None => None,
    }
}

/// The host name of the request, or `NoHostName` when its URI has none.
pub fn domain(request: &ClientRequest) -> (res: Result<String, ConnectError>)
    ensures
        match uri_host(*request) {
            Some(h) => res matches Ok(s) && s@ == h,
            None => res == Err::<String, ConnectError>(ConnectError::NoHostName),
        },
{
    match request_host(request) {
        Some(h) => Ok(h),
        None => Err(ConnectError::NoHostName),
    }
}

fn as_opt_str(s: &Option<String>) -> (res: Option<&str>)
    ensures
        opt_bytes(res) == opt_utf8(opt_string_view(*s)),
{
    match s {
        Some(s) => Some(s.as_str()),
        None => None,
    }
}

/// The address `host:port` that the request connects to: the host of its URI, and the
/// port of its URI or else the default port of its scheme.
pub fn request_address(request: &ClientRequest) -> (res: Result<Vec<u8>, ConnectError>)
    ensures
        match address_outcome(opt_utf8(uri_host(*request)), uri_port(*request), opt_utf8(uri_scheme(*request))) {
            Ok(a) => res matches Ok(v) && v@ == a,
            Err(e) => res == Err::<Vec<u8>, ConnectError>(e),
        },
{
    let host = request_host(request);
    let port = request_port(request);
    let scheme = request_scheme(request);
    let h = as_opt_str(&host);
    let sc = as_opt_str(&scheme);
    connect_address(h, port, sc)
}

/// The port that the request connects to: the port of its URI, or else the default
/// port of its scheme.
pub fn request_target_port(request: &ClientRequest) -> (res: Result<u16, ConnectError>)
    ensures
        res == port_outcome(uri_port(*request), opt_utf8(uri_scheme(*request))),
{
    let port = request_port(request);
    let scheme = request_scheme(request);
    let sc = as_opt_str(&scheme);
    connect_port(port, sc)
}

/// Whether the request asks for a secure (`wss`) connection.
pub fn request_is_secure(request: &ClientRequest) -> (res: bool)
    ensures
        res == (scheme_tls(opt_utf8(uri_scheme(*request))) == Some(true)),
{
    let scheme = request_scheme(request);
    match as_opt_str(&scheme) {
        Some(s) => if bytes_equal(s.as_bytes(), "ws".as_bytes()) {
            false
        } else {
            bytes_equal(s.as_bytes(), "wss".as_bytes())
        },
        None => false,
    }
}

/// Whether the scheme asks for TLS: `Some(false)` for `ws`, `Some(true)` for `wss`,
/// `None` for any other scheme or none.
pub open spec fn scheme_tls(scheme: Option<Seq<u8>>) -> Option<bool> {
    match scheme {
        Some(s) => if s == "ws".spec_bytes() {
            Some(false)
        } else if s == "wss".spec_bytes() {
            Some(true)
        } else {
            None
        },
        None => None,
    }
}

/// The connector for a URI with this scheme: the scheme must be `ws` or `wss`; a
/// connector that is given is used; otherwise `ws` is plain, and `wss` needs TLS, which
/// is not available.
pub open spec fn connector_outcome(scheme: Option<Seq<u8>>, connector: Option<Connector>) -> Result<Connector, ConnectError> {
    match scheme_tls(scheme) {
        None => Err(ConnectError::UnsupportedUrlScheme),
        Some(tls) => match connector {
            Some(c) => Ok(c),
            None => if tls {
                Err(ConnectError::TlsFeatureNotEnabled)
            } else {
                Ok(Connector::Plain)
            },
        },
    }
}

/// Chooses how to secure a connection to a URI with this scheme.
pub fn choose_connector(scheme: Option<&str>, connector: Option<Connector>) -> (res: Result<Connector, ConnectError>)
    ensures
        res == connector_outcome(opt_bytes(scheme), connector),
{
    let tls = match scheme {
        Some(s) => {
            if bytes_equal(s.as_bytes(), "ws".as_bytes()) {
                false
            } else if bytes_equal(s.as_bytes(), "wss".as_bytes()) {
                true
            } else {
                return Err(ConnectError::UnsupportedUrlScheme);
            }
        },
        None => {
            return Err(ConnectError::UnsupportedUrlScheme);
        },
    };
    match connector {
        Some(c) => Ok(c),
        None => if tls {
            Err(ConnectError::TlsFeatureNotEnabled)
        } else {
            Ok(Connector::Plain)
        },
    }
}

/// Chooses how to secure the connection for the request, from the scheme of its URI.
pub fn request_connector(request: &ClientRequest, connector: Option<Connector>) -> (res: Result<Connector, ConnectError>)
    ensures
        res == connector_outcome(opt_utf8(uri_scheme(*request)), connector),
{
    let scheme = request_scheme(request);
    let sc = as_opt_str(&scheme);
    choose_connector(sc, connector)
}

/// Without TLS, a `wss` URI with no connector given is refused, never connected in the
/// clear; a `ws` URI is always plain.
pub proof fn lemma_tls_is_never_downgraded(connector: Option<Connector>)
    ensures
        connector_outcome(Some("wss".spec_bytes()), None) == Err::<Connector, ConnectError>(ConnectError::TlsFeatureNotEnabled),
        connector_outcome(Some("ws".spec_bytes()), connector) == Ok::<Connector, ConnectError>(Connector::Plain),
        connector_outcome(Some("wss".spec_bytes()), Some(Connector::Plain)) == Ok::<Connector, ConnectError>(Connector::Plain),
        scheme_tls(Some("wss".spec_bytes())) == Some(true),
        scheme_tls(Some("ws".spec_bytes())) == Some(false),
{
    lemma_ws_is_not_wss();
}

/// Only `ws` and `wss` are WebSocket schemes: any other scheme, or none, has no
/// connector, no default port, and asks for no TLS.
pub proof fn lemma_other_schemes_are_refused(scheme: Option<Seq<u8>>, connector: Option<Connector>)
    requires
        scheme != Some("ws".spec_bytes()),
        scheme != Some("wss".spec_bytes()),
    ensures
        connector_outcome(scheme, connector) == Err::<Connector, ConnectError>(ConnectError::UnsupportedUrlScheme),
        default_port(scheme) is None,
        scheme_tls(scheme) is None,
{
}

proof fn lemma_ws_is_not_wss()
    ensures
        "ws".spec_bytes() != "wss".spec_bytes(),
{
    reveal_strlit("ws");
    reveal_strlit("wss");
    assert(is_ascii("ws"));
    assert(is_ascii("wss"));
    is_ascii_spec_bytes("ws");
    is_ascii_spec_bytes("wss");
    assert("ws".spec_bytes().len() != "wss".spec_bytes().len());
}

/// The address a request connects to is its host, a colon and its port. A port written
/// in the URI is always the port, whatever the scheme; only without one does the scheme
/// decide, 443 for `wss` and 80 for `ws`, and any other scheme then has no port. A URI
/// without a host has no address. The port after the colon reads back as the port.
pub proof fn lemma_address_is_host_and_port(h: Seq<u8>, p: u16, explicit: Option<u16>, scheme: Option<Seq<u8>>)
    ensures
        address_outcome(None, explicit, scheme) == Err::<Seq<u8>, ConnectError>(ConnectError::NoHostName),
        port_outcome(Some(p), scheme) == Ok::<u16, ConnectError>(p),
        address_outcome(Some(h), Some(p), scheme) == Ok::<Seq<u8>, ConnectError>(h + seq![58u8] + decimal(p as nat)),
        address_outcome(Some(h), None, Some("wss".spec_bytes())) == Ok::<Seq<u8>, ConnectError>(h + seq![58u8] + decimal(443)),
        address_outcome(Some(h), None, Some("ws".spec_bytes())) == Ok::<Seq<u8>, ConnectError>(h + seq![58u8] + decimal(80)),
        (scheme != Some("ws".spec_bytes()) && scheme != Some("wss".spec_bytes())) ==>
            address_outcome(Some(h), None, scheme) == Err::<Seq<u8>, ConnectError>(ConnectError::UnsupportedUrlScheme),
        port_outcome(explicit, scheme) matches Ok(q) ==>
            address_outcome(Some(h), explicit, scheme) == Ok::<Seq<u8>, ConnectError>(h + seq![58u8] + decimal(q as nat)),
        port_outcome(explicit, scheme) matches Err(e) ==>
            address_outcome(Some(h), explicit, scheme) == Err::<Seq<u8>, ConnectError>(e),
        address_outcome(Some(h), explicit, scheme) matches Ok(a) ==> {
            &&& a.take(h.len() as int) == h
            &&& a[h.len() as int] == 58u8
            &&& parse_port(a.skip(h.len() as int + 1)) == Some(port_outcome(explicit, scheme)->Ok_0)
        },
{
    lemma_ws_is_not_wss();
    if port_outcome(explicit, scheme) is Ok {
        let q = port_outcome(explicit, scheme)->Ok_0;
        let a = h + seq![58u8] + decimal(q as nat);
        assert(a.take(h.len() as int) =~= h);
        assert(a.skip(h.len() as int + 1) =~= decimal(q as nat));
        lemma_port_reads_back(q);
    }
}

} // verus!
