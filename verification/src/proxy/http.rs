//! HTTP `CONNECT`: the request, the status line of the answer, and the status check.
use vstd::prelude::*;
use vstd::string::*;
use crate::bytes::{base64, decimal, has_prefix, push_all, push_base64, starts_with};
use super::{Credentials, ProxyError, credentials_view};
use super::env::{digits_value, lemma_decimal_reads_back};

verus! {

/// The answer to `CONNECT` may not grow to this many bytes before its head ends.
pub const MAX_CONNECT_RESPONSE_SIZE: usize = 8192;

/// The answer to `CONNECT` is read in pieces of at most this many bytes.
pub const CONNECT_READ_CHUNK: usize = 512;

/// The `Proxy-Authorization` line for the credentials, if there are any.
pub open spec fn proxy_authorization(credentials: Option<(Seq<u8>, Seq<u8>)>) -> Seq<u8> {
    match credentials {
        Some((user, pass)) => "Proxy-Authorization: Basic ".spec_bytes() + base64(user + seq![58u8] + pass)
            + "\r\n".spec_bytes(),
        None => seq![],
    }
}

/// The `CONNECT` request for `authority`: the request line, a `Host` header, the
/// `Proxy-Authorization` header when there are credentials, and the blank line.
pub open spec fn http_connect_request(authority: Seq<u8>, credentials: Option<(Seq<u8>, Seq<u8>)>) -> Seq<u8> {
    "CONNECT ".spec_bytes() + authority + " HTTP/1.1\r\n".spec_bytes() + "Host: ".spec_bytes() + authority
        + "\r\n".spec_bytes() + proxy_authorization(credentials) + "\r\n".spec_bytes()
}

/// Builds the `CONNECT` request for `authority`, with Basic authorization when
/// credentials are given.
pub fn build_http_connect_request(authority: &[u8], credentials: &Option<Credentials>) -> (res: Vec<u8>)
    ensures
        res@ == http_connect_request(authority@, credentials_view(*credentials)),
{
    let mut out: Vec<u8> = Vec::new();
    push_all(&mut out, "CONNECT ".as_bytes());
    push_all(&mut out, authority);
    push_all(&mut out, " HTTP/1.1\r\n".as_bytes());
    push_all(&mut out, "Host: ".as_bytes());
    push_all(&mut out, authority);
    push_all(&mut out, "\r\n".as_bytes());
    let ghost head = out@;
    match credentials {
        Some(c) => {
            push_all(&mut out, "Proxy-Authorization: Basic ".as_bytes());
            let mut pair: Vec<u8> = Vec::new();
            push_all(&mut pair, c.username.as_slice());
            pair.push(58u8);
            push_all(&mut pair, c.password.as_slice());
            push_base64(&mut out, pair.as_slice());
            push_all(&mut out, "\r\n".as_bytes());
            assert(pair@ == c.username@ + seq![58u8] + c.password@);
            assert(credentials_view(*credentials) == Some((c.username@, c.password@)));
            assert(out@ =~= head + proxy_authorization(credentials_view(*credentials)));
        },
        None => {
            assert(out@ =~= head + proxy_authorization(credentials_view(*credentials)));
        },
    }
    assert(out@ =~= head + proxy_authorization(credentials_view(*credentials)));
    push_all(&mut out, "\r\n".as_bytes());
    out
}

/// Whether `b` is an ASCII decimal digit.
pub open spec fn is_digit(b: u8) -> bool {
    48 <= b <= 57
}

/// The status code of an answer that starts with an HTTP/1.0 or HTTP/1.1 status line
/// (`HTTP/1.x`, a space, three digits, then a space or the end of the line), or `None`.
pub open spec fn http_status(response: Seq<u8>) -> Option<u16> {
    if response.len() >= 13 && has_prefix(response, "HTTP/1.".spec_bytes()) && (response[7] == 48
        || response[7] == 49) && response[8] == 32 && is_digit(response[9]) && is_digit(response[10])
        && is_digit(response[11]) && (response[12] == 32 || response[12] == 13) {
        Some(
            ((response[9] - 48) * 100 + (response[10] - 48) * 10 + (response[11] - 48)) as u16,
        )
    } else {
        None
    }
}

/// Reads the status code from the answer to `CONNECT`.
pub fn parse_http_connect_response(response: &[u8]) -> (res: Option<u16>)
    ensures
        res == http_status(response@),
{
    if response.len() < 13 {
        return None;
    }
    if !starts_with(response, "HTTP/1.".as_bytes()) {
        return None;
    }
    let minor = response[7];
    let d0 = response[9];
    let d1 = response[10];
    let d2 = response[11];
    let end = response[12];
    if (minor == 48 || minor == 49) && response[8] == 32 && 48 <= d0 && d0 <= 57 && 48 <= d1
        && d1 <= 57 && 48 <= d2 && d2 <= 57 && (end == 32 || end == 13) {
        let code: u16 = (d0 - 48) as u16 * 100 + (d1 - 48) as u16 * 10 + (d2 - 48) as u16;
        Some(code)
    } else {
        None
    }
}

/// What the status of the answer to `CONNECT` means for the tunnel: a `2xx` status
/// opens it, any other status refuses it.
pub open spec fn connect_status_outcome(status: u16) -> Result<(), ProxyError> {
    if 200 <= status < 300 {
        Ok(())
    } else {
        Err(ProxyError::HttpStatus(status))
    }
}

/// Checks the status of the answer to `CONNECT`.
pub fn check_http_connect_status(status: u16) -> (res: Result<(), ProxyError>)
    ensures
        res == connect_status_outcome(status),
{
    if 200 <= status && status < 300 {
        Ok(())
    } else {
        Err(ProxyError::HttpStatus(status))
    }
}

/// What a complete answer to `CONNECT` means for the tunnel: an answer without a
/// status line is malformed, and otherwise its status decides.
pub open spec fn connect_response_outcome(response: Seq<u8>) -> Result<(), ProxyError> {
    match http_status(response) {
        Some(status) => connect_status_outcome(status),
        None => Err(ProxyError::MalformedResponse),
    }
}

/// Decides the tunnel from the complete answer to `CONNECT`.
pub fn check_http_connect_response(response: &[u8]) -> (res: Result<(), ProxyError>)
    ensures
        res == connect_response_outcome(response@),
{
    match parse_http_connect_response(response) {
        Some(status) => check_http_connect_status(status),
        None => Err(ProxyError::MalformedResponse),
    }
}

/// A status line `HTTP/1.0` or `HTTP/1.1`, a space, a three-digit code and a space or
/// the end of the line gives that code, whatever follows; the tunnel then opens exactly
/// for a `2xx` code and is otherwise refused with that code. An answer that does not
/// start with `HTTP/1.` is malformed.
pub proof fn lemma_status_line_decides(minor: u8, code: u16, sep: u8, rest: Seq<u8>, other: Seq<u8>)
    requires
        minor == 48 || minor == 49,
        100 <= code <= 999,
        sep == 32 || sep == 13,
    ensures
        ({
            let response = "HTTP/1.".spec_bytes() + seq![minor, 32u8] + decimal(code as nat) + seq![sep] + rest;
            &&& http_status(response) == Some(code)
            &&& (200 <= code < 300) ==> connect_response_outcome(response) == Ok::<(), ProxyError>(())
            &&& !(200 <= code < 300) ==> connect_response_outcome(response) == Err::<(), ProxyError>(ProxyError::HttpStatus(code))
        }),
        !has_prefix(other, "HTTP/1.".spec_bytes()) ==> connect_response_outcome(other) == Err::<(), ProxyError>(ProxyError::MalformedResponse),
{
    reveal_strlit("HTTP/1.");
    assert(is_ascii("HTTP/1."));
    is_ascii_spec_bytes("HTTP/1.");
    let p = "HTTP/1.".spec_bytes();
    assert(p.len() == 7);
    let d = decimal(code as nat);
    lemma_decimal_reads_back(code as nat);
    assert(d.len() == 3);
    let response = p + seq![minor, 32u8] + d + seq![sep] + rest;
    assert(response.take(7) =~= p);
    assert(response[7] == minor);
    assert(response[8] == 32u8);
    assert(response[9] == d[0]);
    assert(response[10] == d[1]);
    assert(response[11] == d[2]);
    assert(response[12] == sep);
    assert(d.drop_last().drop_last().drop_last() =~= Seq::<u8>::empty());
    assert(d.drop_last().drop_last().last() == d[0]);
    assert(d.drop_last().last() == d[1]);
    assert(digits_value(d.drop_last().drop_last()) == digits_value(d.drop_last().drop_last().drop_last()) * 10 + (d[0] - 48));
    assert(digits_value(d.drop_last()) == digits_value(d.drop_last().drop_last()) * 10 + (d[1] - 48));
    assert(digits_value(d) == digits_value(d.drop_last()) * 10 + (d[2] - 48));
    assert(48 <= d[0] <= 57 && 48 <= d[1] <= 57 && 48 <= d[2] <= 57);
}

} // verus!
