//! SOCKS5 (RFC 1928) with username/password authentication (RFC 1929): the messages the
//! client sends and what each answer of the proxy means.
use vstd::prelude::*;
use crate::bytes::push_all;
use super::{Credentials, HostAddr, ProxyError};

verus! {

/// The greeting: version 5 and the offered methods, "no authentication" always and
/// "username/password" when credentials are configured.
pub open spec fn socks5_greeting_bytes(with_auth: bool) -> Seq<u8> {
    if with_auth {
        seq![5u8, 2u8, 0u8, 2u8]
    } else {
        seq![5u8, 1u8, 0u8]
    }
}

/// Builds the greeting.
pub fn socks5_greeting(with_auth: bool) -> (res: Vec<u8>)
    ensures
        res@ == socks5_greeting_bytes(with_auth),
{
    let mut methods: Vec<u8> = Vec::new();
    methods.push(0u8);
    if with_auth {
        methods.push(2u8);
    }
    let mut out: Vec<u8> = Vec::new();
    out.push(5u8);
    out.push(methods.len() as u8);
    push_all(&mut out, methods.as_slice());
    assert(out@ =~= socks5_greeting_bytes(with_auth));
    out
}

/// The authentication method the proxy chose.
#[derive(Debug, PartialEq, Eq, Structural, Clone, Copy)]
pub enum Socks5Method {
    /// No authentication.
    NoAuth,
    /// Username and password.
    UsernamePassword,
}

/// What the two-byte answer to the greeting means: the version must be 5; method `0`
/// needs nothing more, method `2` needs the configured credentials, `0xFF` means none
/// of the offered methods is acceptable, and any other method was not offered.
pub open spec fn socks5_method_outcome(reply: Seq<u8>, has_auth: bool) -> Result<Socks5Method, ProxyError> {
    if reply[0] != 5 {
        Err(ProxyError::InvalidVersion)
    } else if reply[1] == 0 {
        Ok(Socks5Method::NoAuth)
    } else if reply[1] == 2 {
        if has_auth {
            Ok(Socks5Method::UsernamePassword)
        } else {
            Err(ProxyError::AuthRequired)
        }
    } else if reply[1] == 255 {
        Err(ProxyError::NoAcceptableMethod)
    } else {
        Err(ProxyError::UnsupportedMethod)
    }
}

/// Reads the proxy's choice of method.
pub fn socks5_method_choice(reply: &[u8], has_auth: bool) -> (res: Result<Socks5Method, ProxyError>)
    requires
        reply@.len() == 2,
    ensures
        res == socks5_method_outcome(reply@, has_auth),
{
    if reply[0] != 5 {
        Err(ProxyError::InvalidVersion)
    } else if reply[1] == 0 {
        Ok(Socks5Method::NoAuth)
    } else if reply[1] == 2 {
        if has_auth {
            Ok(Socks5Method::UsernamePassword)
        } else {
            Err(ProxyError::AuthRequired)
        }
    } else if reply[1] == 255 {
        Err(ProxyError::NoAcceptableMethod)
    } else {
        Err(ProxyError::UnsupportedMethod)
    }
}

/// The username/password request: version 1, then the user name and the password, each
/// after its length byte. Credentials that do not fit a length byte are refused.
pub open spec fn socks5_userpass_bytes(user: Seq<u8>, pass: Seq<u8>) -> Result<Seq<u8>, ProxyError> {
    if user.len() > 255 || pass.len() > 255 {
        Err(ProxyError::CredentialsTooLong)
    } else {
        Ok(seq![1u8, user.len() as u8] + user + seq![pass.len() as u8] + pass)
    }
}

/// Builds the username/password request.
pub fn socks5_userpass_request(credentials: &Credentials) -> (res: Result<Vec<u8>, ProxyError>)
    ensures
        match socks5_userpass_bytes(credentials.username@, credentials.password@) {
            Ok(bytes) => res matches Ok(v) && v@ == bytes,
            Err(e) => res == Err::<Vec<u8>, ProxyError>(e),
        },
{
    let user = credentials.username.as_slice();
    let pass = credentials.password.as_slice();
    if user.len() > 255 || pass.len() > 255 {
        return Err(ProxyError::CredentialsTooLong);
    }
    let mut out: Vec<u8> = Vec::new();
    out.push(1u8);
    out.push(user.len() as u8);
    push_all(&mut out, user);
    out.push(pass.len() as u8);
    push_all(&mut out, pass);
    assert(out@ =~= seq![1u8, user@.len() as u8] + user@ + seq![pass@.len() as u8] + pass@);
    Ok(out)
}

/// Whether the two-byte answer to the credentials accepts them (version 1, status 0).
pub open spec fn socks5_auth_accepted(reply: Seq<u8>) -> bool {
    reply[0] == 1 && reply[1] == 0
}

/// Checks the answer to the credentials.
pub fn socks5_check_auth_reply(reply: &[u8]) -> (res: Result<(), ProxyError>)
    requires
        reply@.len() == 2,
    ensures
        res is Ok <==> socks5_auth_accepted(reply@),
        res is Err ==> res == Err::<(), ProxyError>(ProxyError::AuthFailed),
{
    if reply[0] != 1 || reply[1] != 0 {
        Err(ProxyError::AuthFailed)
    } else {
        Ok(())
    }
}

/// The big-endian bytes of a port.
pub open spec fn port_bytes(port: u16) -> Seq<u8> {
    seq![(port / 256) as u8, (port % 256) as u8]
}

/// The address field for the target: an IPv4 address (type 1), an IPv6 address
/// (type 4), or the host name after its length byte (type 3). A name that does not fit
/// a length byte is refused.
pub open spec fn socks5_address_bytes(host: Seq<u8>, ip: Option<HostAddr>) -> Result<Seq<u8>, ProxyError> {
    match ip {
        Some(HostAddr::V4(octets)) => Ok(seq![1u8] + octets@),
        Some(HostAddr::V6(octets)) => Ok(seq![4u8] + octets@),
        None => if host.len() > 255 {
            Err(ProxyError::DomainTooLong)
        } else {
            Ok(seq![3u8, host.len() as u8] + host)
        },
    }
}

/// The connect request: version 5, command CONNECT (1), a reserved zero, the address
/// field and the port in network byte order.
pub open spec fn socks5_connect_bytes(host: Seq<u8>, ip: Option<HostAddr>, port: u16) -> Result<Seq<u8>, ProxyError> {
    match socks5_address_bytes(host, ip) {
        Ok(address) => Ok(seq![5u8, 1u8, 0u8] + address + port_bytes(port)),
        Err(e) => Err(e),
    }
}

/// Builds the connect request for `host:port`, where `ip` holds the octets of `host`
/// when it is an IP address literal.
pub fn socks5_connect_request(host: &[u8], ip: &Option<HostAddr>, port: u16) -> (res: Result<Vec<u8>, ProxyError>)
    ensures
        match socks5_connect_bytes(host@, *ip, port) {
            Ok(bytes) => res matches Ok(v) && v@ == bytes,
            Err(e) => res == Err::<Vec<u8>, ProxyError>(e),
        },
{
    let mut out: Vec<u8> = Vec::new();
    out.push(5u8);
    out.push(1u8);
    out.push(0u8);
    match ip {
        Some(HostAddr::V4(octets)) => {
            out.push(1u8);
            push_all(&mut out, octets.as_slice());
        },
        Some(HostAddr::V6(octets)) => {
            out.push(4u8);
            push_all(&mut out, octets.as_slice());
        },
        None => {
            if host.len() > 255 {
                return Err(ProxyError::DomainTooLong);
            }
            out.push(3u8);
            out.push(host.len() as u8);
            push_all(&mut out, host);
        },
    }
    let ghost before_port = out@;
    out.push((port / 256) as u8);
    out.push((port % 256) as u8);
    proof {
        let address = socks5_address_bytes(host@, *ip)->Ok_0;
        assert(before_port =~= seq![5u8, 1u8, 0u8] + address);
        assert(out@ =~= seq![5u8, 1u8, 0u8] + address + port_bytes(port));
    }
    Ok(out)
}

/// How the bound address in the proxy's reply is to be read past.
#[derive(Debug, PartialEq, Eq, Structural, Clone, Copy)]
pub enum BoundAddress {
    /// An address of this many bytes.
    Fixed(usize),
    /// A host name whose length is in the next byte.
    LengthPrefixed,
}

/// What the four-byte head of the reply to the connect request means: the version must
/// be 5 and the reply code 0 (success); then the address type says how long the bound
/// address is (4 bytes for IPv4, 16 for IPv6, a length byte for a name).
pub open spec fn socks5_reply_outcome(header: Seq<u8>) -> Result<BoundAddress, ProxyError> {
    if header[0] != 5 {
        Err(ProxyError::InvalidVersion)
    } else if header[1] != 0 {
        Err(ProxyError::ConnectFailed(header[1]))
    } else if header[3] == 1 {
        Ok(BoundAddress::Fixed(4))
    } else if header[3] == 3 {
        Ok(BoundAddress::LengthPrefixed)
    } else if header[3] == 4 {
        Ok(BoundAddress::Fixed(16))
    } else {
        Err(ProxyError::InvalidAddressType)
    }
}

/// Reads the head of the reply to the connect request.
pub fn socks5_check_connect_reply(header: &[u8]) -> (res: Result<BoundAddress, ProxyError>)
    requires
        header@.len() == 4,
    ensures
        res == socks5_reply_outcome(header@),
{
    if header[0] != 5 {
        return Err(ProxyError::InvalidVersion);
    }
    if header[1] != 0 {
        return Err(ProxyError::ConnectFailed(header[1]));
    }
    match header[3] {
        1u8 => Ok(BoundAddress::Fixed(4)),
        3u8 => Ok(BoundAddress::LengthPrefixed),
        4u8 => Ok(BoundAddress::Fixed(16)),
        _ => Err(ProxyError::InvalidAddressType),
    }
}

/// The greeting offers username/password exactly when credentials are configured, and
/// its count byte is the number of methods that follow.
pub proof fn lemma_greeting_offers_auth_iff_configured(with_auth: bool)
    ensures
        socks5_greeting_bytes(with_auth)[0] == 5,
        socks5_greeting_bytes(with_auth).len() == 2 + socks5_greeting_bytes(with_auth)[1],
        socks5_greeting_bytes(with_auth).contains(2u8) <==> with_auth,
{
    if with_auth {
        assert(socks5_greeting_bytes(with_auth)[3] == 2u8);
    } else {
        assert forall|i: int| 0 <= i < socks5_greeting_bytes(with_auth).len() implies socks5_greeting_bytes(with_auth)[i] != 2u8 by {}
    }
}

/// Every connect request that is built starts with version 5 and the CONNECT command,
/// ends with the port in network byte order, and is as long as its parts.
pub proof fn lemma_connect_request_shape(host: Seq<u8>, ip: Option<HostAddr>, port: u16)
    requires
        socks5_connect_bytes(host, ip, port) is Ok,
    ensures
        ({
            let r = socks5_connect_bytes(host, ip, port)->Ok_0;
            &&& r[0] == 5 && r[1] == 1 && r[2] == 0
            &&& r.len() >= 7
            &&& r.subrange(r.len() - 2, r.len() as int) == port_bytes(port)
            &&& (r[r.len() - 2] as int) * 256 + (r[r.len() - 1] as int) == port as int
        }),
{
    let a = socks5_address_bytes(host, ip)->Ok_0;
    let r = socks5_connect_bytes(host, ip, port)->Ok_0;
    assert(r == seq![5u8, 1u8, 0u8] + a + port_bytes(port));
    assert(r.subrange(r.len() - 2, r.len() as int) =~= port_bytes(port));
}

/// Credentials are never truncated: a user name or password longer than 255 bytes is
/// refused, and otherwise both appear in full after their exact lengths.
pub proof fn lemma_credentials_never_truncated(user: Seq<u8>, pass: Seq<u8>)
    ensures
        (user.len() > 255 || pass.len() > 255) <==> socks5_userpass_bytes(user, pass) == Err::<Seq<u8>, ProxyError>(ProxyError::CredentialsTooLong),
        socks5_userpass_bytes(user, pass) is Ok ==> ({
            let r = socks5_userpass_bytes(user, pass)->Ok_0;
            &&& r[1] as int == user.len()
            &&& r.subrange(2, 2 + user.len() as int) == user
            &&& r[2 + user.len() as int] as int == pass.len()
            &&& r.subrange(3 + user.len() as int, r.len() as int) == pass
        }),
{
    if user.len() <= 255 && pass.len() <= 255 {
        let r = socks5_userpass_bytes(user, pass)->Ok_0;
        assert(r.subrange(2, 2 + user.len() as int) =~= user);
        assert(r.subrange(3 + user.len() as int, r.len() as int) =~= pass);
    }
}

/// What the proxy's answer to the greeting means, method by method. The version byte
/// must be 5. Method 0 ("no authentication") always lets the handshake go on, whether or
/// not credentials are configured; method 2 takes the credentials, and is an error when
/// there are none; `0xFF` says no offered method is acceptable; any other method was
/// never offered. Configured credentials change the meaning of method 2 alone.
pub proof fn lemma_method_reply_meaning(version: u8, method: u8, has_auth: bool)
    ensures
        version != 5 ==> socks5_method_outcome(seq![version, method], has_auth)
            == Err::<Socks5Method, ProxyError>(ProxyError::InvalidVersion),
        socks5_method_outcome(seq![5u8, 0u8], has_auth) == Ok::<Socks5Method, ProxyError>(Socks5Method::NoAuth),
        socks5_method_outcome(seq![5u8, 2u8], true) == Ok::<Socks5Method, ProxyError>(Socks5Method::UsernamePassword),
        socks5_method_outcome(seq![5u8, 2u8], false) == Err::<Socks5Method, ProxyError>(ProxyError::AuthRequired),
        socks5_method_outcome(seq![5u8, 255u8], has_auth) == Err::<Socks5Method, ProxyError>(ProxyError::NoAcceptableMethod),
        (method != 0 && method != 2 && method != 255) ==> socks5_method_outcome(seq![5u8, method], has_auth)
            == Err::<Socks5Method, ProxyError>(ProxyError::UnsupportedMethod),
        method != 2 ==> socks5_method_outcome(seq![version, method], true)
            == socks5_method_outcome(seq![version, method], false),
        socks5_method_outcome(seq![version, method], has_auth) is Ok ==> version == 5 && (method == 0 || method == 2),
{
}

/// The answer to the credentials accepts them exactly when it is version 1, status 0.
pub proof fn lemma_auth_reply_meaning(reply: Seq<u8>)
    requires
        reply.len() == 2,
    ensures
        socks5_auth_accepted(reply) <==> reply == seq![1u8, 0u8],
{
    if reply[0] == 1 && reply[1] == 0 {
        assert(reply =~= seq![1u8, 0u8]);
    }
}

/// The connect request names the target exactly: a host name goes after its length
/// with address type 3, an IPv4 address as its four octets with type 1, an IPv6 address
/// as its sixteen octets with type 4, and the port follows in network byte order. Only a
/// name longer than 255 bytes is refused.
pub proof fn lemma_connect_request_names_target(host: Seq<u8>, v4: [u8; 4], v6: [u8; 16], port: u16)
    ensures
        host.len() <= 255 ==> socks5_connect_bytes(host, None, port) == Ok::<Seq<u8>, ProxyError>(
            seq![5u8, 1u8, 0u8, 3u8, host.len() as u8] + host + seq![(port / 256) as u8, (port % 256) as u8],
        ),
        host.len() > 255 ==> socks5_connect_bytes(host, None, port) == Err::<Seq<u8>, ProxyError>(ProxyError::DomainTooLong),
        socks5_connect_bytes(host, Some(HostAddr::V4(v4)), port) == Ok::<Seq<u8>, ProxyError>(
            seq![5u8, 1u8, 0u8, 1u8] + v4@ + seq![(port / 256) as u8, (port % 256) as u8],
        ),
        socks5_connect_bytes(host, Some(HostAddr::V6(v6)), port) == Ok::<Seq<u8>, ProxyError>(
            seq![5u8, 1u8, 0u8, 4u8] + v6@ + seq![(port / 256) as u8, (port % 256) as u8],
        ),
{
    assert(seq![5u8, 1u8, 0u8] + (seq![3u8, host.len() as u8] + host) + port_bytes(port)
        =~= seq![5u8, 1u8, 0u8, 3u8, host.len() as u8] + host + seq![(port / 256) as u8, (port % 256) as u8]);
    assert(seq![5u8, 1u8, 0u8] + (seq![1u8] + v4@) + port_bytes(port)
        =~= seq![5u8, 1u8, 0u8, 1u8] + v4@ + seq![(port / 256) as u8, (port % 256) as u8]);
    assert(seq![5u8, 1u8, 0u8] + (seq![4u8] + v6@) + port_bytes(port)
        =~= seq![5u8, 1u8, 0u8, 4u8] + v6@ + seq![(port / 256) as u8, (port % 256) as u8]);
}

/// What the head of the reply to the connect request means: version 5 and reply code 0
/// grant the connection, and the address type says how much follows (four octets for
/// IPv4, sixteen for IPv6, a length byte for a name); a nonzero code is the proxy's
/// refusal with that code, whatever else the head holds.
pub proof fn lemma_connect_reply_meaning(version: u8, code: u8, reserved: u8, atyp: u8)
    ensures
        version != 5 ==> socks5_reply_outcome(seq![version, code, reserved, atyp])
            == Err::<BoundAddress, ProxyError>(ProxyError::InvalidVersion),
        code != 0 ==> socks5_reply_outcome(seq![5u8, code, reserved, atyp])
            == Err::<BoundAddress, ProxyError>(ProxyError::ConnectFailed(code)),
        socks5_reply_outcome(seq![5u8, 0u8, reserved, 1u8]) == Ok::<BoundAddress, ProxyError>(BoundAddress::Fixed(4)),
        socks5_reply_outcome(seq![5u8, 0u8, reserved, 4u8]) == Ok::<BoundAddress, ProxyError>(BoundAddress::Fixed(16)),
        socks5_reply_outcome(seq![5u8, 0u8, reserved, 3u8]) == Ok::<BoundAddress, ProxyError>(BoundAddress::LengthPrefixed),
        (atyp != 1 && atyp != 3 && atyp != 4) ==> socks5_reply_outcome(seq![5u8, 0u8, reserved, atyp])
            == Err::<BoundAddress, ProxyError>(ProxyError::InvalidAddressType),
{
}

} // verus!
