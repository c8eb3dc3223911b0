//! The proxy handshake as a state machine: it says what to send and what to read next,
//! takes what was read, and ends with the tunnel established or refused. The caller
//! does the reading and writing, so the same machine serves any stream.
use vstd::prelude::*;
use vstd::string::*;
use crate::bytes::{authority, authority_bytes, contains_head_terminator, has_head_terminator, push_all};
use super::{Credentials, HostAddr, ProxyConfig, ProxyError, ProxyScheme, credentials_of, credentials_view};
use super::http::{
    CONNECT_READ_CHUNK, MAX_CONNECT_RESPONSE_SIZE, build_http_connect_request,
    check_http_connect_response, connect_response_outcome, http_connect_request,
};
use super::socks5::{
    BoundAddress, Socks5Method, socks5_auth_accepted, socks5_check_auth_reply,
    socks5_check_connect_reply, socks5_connect_bytes, socks5_connect_request, socks5_greeting,
    socks5_greeting_bytes, socks5_method_choice, socks5_method_outcome, socks5_reply_outcome,
    socks5_userpass_bytes, socks5_userpass_request,
};

verus! {

/// Where the handshake stands.
#[derive(Debug, PartialEq, Eq, Structural, Clone, Copy)]
pub enum TunnelPhase {
    /// Nothing sent yet.
    Start,
    /// The `CONNECT` request is being written.
    HttpRequestSent,
    /// Reading the answer to `CONNECT`.
    HttpAwaitingResponse,
    /// The SOCKS5 greeting is being written.
    Socks5GreetingSent,
    /// Reading the proxy's choice of method.
    Socks5AwaitingMethod,
    /// The credentials are being written.
    Socks5CredentialsSent,
    /// Reading the answer to the credentials.
    Socks5AwaitingAuthReply,
    /// The connect request is being written.
    Socks5ConnectSent,
    /// Reading the head of the reply to the connect request.
    Socks5AwaitingReplyHeader,
    /// Reading the length of the bound host name.
    Socks5AwaitingNameLength,
    /// Reading past the bound address and port.
    Socks5AwaitingBoundAddress,
    /// The tunnel is open.
    Established,
    /// The proxy refused the tunnel or answered wrongly.
    Failed,
}

/// What the caller has to do next.
#[derive(Debug, PartialEq, Eq)]
pub enum TunnelAction {
    /// Write all of these bytes, flush, and report it with `sent`.
    Send(Vec<u8>),
    /// Read exactly this many bytes and hand them to `received`.
    ReadExact(usize),
    /// Read once, at most this many bytes, and hand what was read to `received`
    /// (nothing, when the stream has ended).
    ReadSome(usize),
    /// The tunnel is open; the stream now carries the target's traffic.
    Established,
    /// The tunnel could not be opened.
    Failed(ProxyError),
}

/// [`TunnelAction`] with its bytes as a sequence.
pub enum TunnelStep {
    /// Write these bytes.
    Send(Seq<u8>),
    /// Read exactly this many bytes.
    ReadExact(nat),
    /// Read once, at most this many bytes.
    ReadSome(nat),
    /// The tunnel is open.
    Established,
    /// The tunnel could not be opened.
    Failed(ProxyError),
}

impl View for TunnelAction {
    type V = TunnelStep;

    open spec fn view(&self) -> TunnelStep {
        match self {
            TunnelAction::Send(v) => TunnelStep::Send(v@),
            TunnelAction::ReadExact(n) => TunnelStep::ReadExact(*n as nat),
            TunnelAction::ReadSome(n) => TunnelStep::ReadSome(*n as nat),
            TunnelAction::Established => TunnelStep::Established,
            TunnelAction::Failed(e) => TunnelStep::Failed(*e),
        }
    }
}

/// The state of a handshake as values.
pub struct TunnelModel {
    /// The proxy's protocol.
    pub scheme: ProxyScheme,
    /// The credentials, as wire bytes.
    pub credentials: Option<(Seq<u8>, Seq<u8>)>,
    /// The target host, UTF-8.
    pub host: Seq<u8>,
    /// The octets of the target host when it is an IP address literal.
    pub ip: Option<HostAddr>,
    /// The target port.
    pub port: u16,
    /// Where the handshake stands.
    pub phase: TunnelPhase,
    /// What has been read of the answer to `CONNECT`.
    pub response: Seq<u8>,
    /// How many bytes the next exact read is for.
    pub expected: nat,
}

/// The model with another phase, answer buffer and expected read length.
pub open spec fn with_phase(m: TunnelModel, phase: TunnelPhase, response: Seq<u8>, expected: nat) -> TunnelModel {
    TunnelModel { phase, response, expected, ..m }
}

/// Failing: the step reports the error and the machine stops.
pub open spec fn fail(m: TunnelModel, e: ProxyError) -> (TunnelStep, TunnelModel) {
    (TunnelStep::Failed(e), with_phase(m, TunnelPhase::Failed, m.response, 0))
}

/// The first step: the `CONNECT` request for `host:port`, or the SOCKS5 greeting.
pub open spec fn model_start(m: TunnelModel) -> (TunnelStep, TunnelModel) {
    match m.scheme {
        ProxyScheme::Http => (
            TunnelStep::Send(http_connect_request(authority(m.host, m.port), m.credentials)),
            with_phase(m, TunnelPhase::HttpRequestSent, seq![], 0),
        ),
        _ => (
            TunnelStep::Send(socks5_greeting_bytes(m.credentials is Some)),
            with_phase(m, TunnelPhase::Socks5GreetingSent, seq![], 0),
        ),
    }
}

/// After a message was written: read the answer it calls for.
pub open spec fn model_sent(m: TunnelModel) -> (TunnelStep, TunnelModel) {
    match m.phase {
        TunnelPhase::HttpRequestSent => (
            TunnelStep::ReadSome(CONNECT_READ_CHUNK as nat),
            with_phase(m, TunnelPhase::HttpAwaitingResponse, seq![], 0),
        ),
        TunnelPhase::Socks5GreetingSent => (
            TunnelStep::ReadExact(2),
            with_phase(m, TunnelPhase::Socks5AwaitingMethod, m.response, 2),
        ),
        TunnelPhase::Socks5CredentialsSent => (
            TunnelStep::ReadExact(2),
            with_phase(m, TunnelPhase::Socks5AwaitingAuthReply, m.response, 2),
        ),
        _ => (
            TunnelStep::ReadExact(4),
            with_phase(m, TunnelPhase::Socks5AwaitingReplyHeader, m.response, 4),
        ),
    }
}

/// Sending the connect request, or failing when it cannot be built.
pub open spec fn connect_step(m: TunnelModel) -> (TunnelStep, TunnelModel) {
    match socks5_connect_bytes(m.host, m.ip, m.port) {
        Ok(bytes) => (TunnelStep::Send(bytes), with_phase(m, TunnelPhase::Socks5ConnectSent, m.response, 0)),
        Err(e) => fail(m, e),
    }
}

/// After the answer to `CONNECT` ended: its status decides.
pub open spec fn http_finish(m: TunnelModel, response: Seq<u8>) -> (TunnelStep, TunnelModel) {
    match connect_response_outcome(response) {
        Ok(()) => (TunnelStep::Established, with_phase(m, TunnelPhase::Established, response, 0)),
        Err(e) => (TunnelStep::Failed(e), with_phase(m, TunnelPhase::Failed, response, 0)),
    }
}

/// After `data` was read.
pub open spec fn model_received(m: TunnelModel, data: Seq<u8>) -> (TunnelStep, TunnelModel) {
    match m.phase {
        TunnelPhase::HttpAwaitingResponse => {
            let response = m.response + data;
            if data.len() == 0 || has_head_terminator(response) {
                http_finish(m, response)
            } else if response.len() >= MAX_CONNECT_RESPONSE_SIZE {
                (
                    TunnelStep::Failed(ProxyError::ResponseTooLarge),
                    with_phase(m, TunnelPhase::Failed, response, 0),
                )
            } else {
                (
                    TunnelStep::ReadSome(CONNECT_READ_CHUNK as nat),
                    with_phase(m, TunnelPhase::HttpAwaitingResponse, response, 0),
                )
            }
        },
        TunnelPhase::Socks5AwaitingMethod => match socks5_method_outcome(data, m.credentials is Some) {
            Ok(Socks5Method::NoAuth) => connect_step(m),
            Ok(Socks5Method::UsernamePassword) => match socks5_userpass_bytes(
                m.credentials->Some_0.0,
                m.credentials->Some_0.1,
            ) {
                Ok(bytes) => (
                    TunnelStep::Send(bytes),
                    with_phase(m, TunnelPhase::Socks5CredentialsSent, m.response, 0),
                ),
                Err(e) => fail(m, e),
            },
            Err(e) => fail(m, e),
        },
        TunnelPhase::Socks5AwaitingAuthReply => if socks5_auth_accepted(data) {
            connect_step(m)
        } else {
            fail(m, ProxyError::AuthFailed)
        },
        TunnelPhase::Socks5AwaitingReplyHeader => match socks5_reply_outcome(data) {
            Ok(BoundAddress::Fixed(n)) => (
                TunnelStep::ReadExact(n as nat + 2),
                with_phase(m, TunnelPhase::Socks5AwaitingBoundAddress, m.response, n as nat + 2),
            ),
            Ok(BoundAddress::LengthPrefixed) => (
                TunnelStep::ReadExact(1),
                with_phase(m, TunnelPhase::Socks5AwaitingNameLength, m.response, 1),
            ),
            Err(e) => fail(m, e),
        },
        TunnelPhase::Socks5AwaitingNameLength => (
            TunnelStep::ReadExact(data[0] as nat + 2),
            with_phase(m, TunnelPhase::Socks5AwaitingBoundAddress, m.response, data[0] as nat + 2),
        ),
        _ => (TunnelStep::Established, with_phase(m, TunnelPhase::Established, m.response, 0)),
    }
}

/// The machine is waiting for a write to be reported.
pub open spec fn awaits_send(phase: TunnelPhase) -> bool {
    ||| phase == TunnelPhase::HttpRequestSent
    ||| phase == TunnelPhase::Socks5GreetingSent
    ||| phase == TunnelPhase::Socks5CredentialsSent
    ||| phase == TunnelPhase::Socks5ConnectSent
}

/// The machine is waiting for an exact read.
pub open spec fn awaits_exact_read(phase: TunnelPhase) -> bool {
    ||| phase == TunnelPhase::Socks5AwaitingMethod
    ||| phase == TunnelPhase::Socks5AwaitingAuthReply
    ||| phase == TunnelPhase::Socks5AwaitingReplyHeader
    ||| phase == TunnelPhase::Socks5AwaitingNameLength
    ||| phase == TunnelPhase::Socks5AwaitingBoundAddress
}

/// The machine is waiting for a read.
pub open spec fn awaits_read(phase: TunnelPhase) -> bool {
    phase == TunnelPhase::HttpAwaitingResponse || awaits_exact_read(phase)
}

/// The handshake is over.
pub open spec fn is_finished(phase: TunnelPhase) -> bool {
    phase == TunnelPhase::Established || phase == TunnelPhase::Failed
}

/// `data` is what the machine asked to read.
pub open spec fn read_fits(m: TunnelModel, data: Seq<u8>) -> bool {
    if m.phase == TunnelPhase::HttpAwaitingResponse {
        data.len() <= CONNECT_READ_CHUNK
    } else {
        data.len() == m.expected
    }
}

/// The consistent states: an answer to `CONNECT` that is still being read is below the
/// size limit, and each exact read is for the length its message has.
pub open spec fn model_wf(m: TunnelModel) -> bool {
    &&& m.phase == TunnelPhase::HttpAwaitingResponse ==> m.response.len() < MAX_CONNECT_RESPONSE_SIZE && m.expected == 0
    &&& (m.phase == TunnelPhase::Socks5AwaitingMethod || m.phase == TunnelPhase::Socks5AwaitingAuthReply)
        ==> m.expected == 2
    &&& m.phase == TunnelPhase::Socks5AwaitingReplyHeader ==> m.expected == 4
    &&& m.phase == TunnelPhase::Socks5AwaitingNameLength ==> m.expected == 1
    &&& m.phase == TunnelPhase::Socks5AwaitingBoundAddress ==> 2 <= m.expected <= 257
    &&& (m.phase == TunnelPhase::Socks5CredentialsSent || m.phase == TunnelPhase::Socks5AwaitingAuthReply)
        ==> m.credentials is Some
}

/// The step tells the caller exactly what the machine accepts next: a write to report,
/// a read of the length it will check, or nothing once the handshake is over.
pub open spec fn step_agrees(step: TunnelStep, m: TunnelModel) -> bool {
    match step {
        TunnelStep::Send(_) => awaits_send(m.phase),
        TunnelStep::ReadExact(n) => awaits_exact_read(m.phase) && m.expected == n,
        TunnelStep::ReadSome(n) => m.phase == TunnelPhase::HttpAwaitingResponse && n == CONNECT_READ_CHUNK,
        TunnelStep::Established => m.phase == TunnelPhase::Established,
        TunnelStep::Failed(_) => m.phase == TunnelPhase::Failed,
    }
}

/// The machine never asks for what it will not accept: every step it takes from a
/// consistent state names exactly the next call it expects (a write to report, a read of
/// the length it will check, a read of at most one chunk) or says the handshake is
/// over, and leaves the state consistent.
pub proof fn lemma_steps_agree_with_expectations(m: TunnelModel, data: Seq<u8>)
    requires
        model_wf(m),
    ensures
        m.phase == TunnelPhase::Start ==> step_agrees(model_start(m).0, model_start(m).1) && model_wf(model_start(m).1),
        awaits_send(m.phase) ==> step_agrees(model_sent(m).0, model_sent(m).1) && model_wf(model_sent(m).1),
        awaits_read(m.phase) && read_fits(m, data) ==> step_agrees(model_received(m, data).0, model_received(m, data).1)
            && model_wf(model_received(m, data).1),
{
}

/// A finished handshake expects nothing more: none of `start`, `sent` and `received`
/// accepts an established or failed tunnel.
pub proof fn lemma_finished_is_final(phase: TunnelPhase)
    requires
        is_finished(phase),
    ensures
        phase != TunnelPhase::Start,
        !awaits_send(phase),
        !awaits_read(phase),
{
}

/// Credentials go to a SOCKS5 proxy only when it chose username/password (method 2) and
/// credentials are configured; the request then holds exactly those credentials.
pub proof fn lemma_credentials_only_when_asked(m: TunnelModel, data: Seq<u8>)
    requires
        model_wf(m),
        m.phase == TunnelPhase::Socks5AwaitingMethod,
        read_fits(m, data),
        model_received(m, data).1.phase == TunnelPhase::Socks5CredentialsSent,
    ensures
        data[0] == 5 && data[1] == 2,
        m.credentials is Some,
        model_received(m, data).0 == TunnelStep::Send(
            socks5_userpass_bytes(m.credentials->Some_0.0, m.credentials->Some_0.1)->Ok_0,
        ),
{
}

/// An HTTP tunnel opens exactly when the answer to `CONNECT`, read up to the blank line
/// (or to the end of the stream), starts with a status line whose code is in `200..300`.
pub proof fn lemma_http_established_iff_2xx(m: TunnelModel, data: Seq<u8>)
    requires
        model_wf(m),
        m.phase == TunnelPhase::HttpAwaitingResponse,
        read_fits(m, data),
    ensures
        ({
            let response = m.response + data;
            let ended = data.len() == 0 || has_head_terminator(response);
            &&& (model_received(m, data).0 == TunnelStep::Established) <==> (ended && connect_response_outcome(response) is Ok)
            &&& connect_response_outcome(response) is Ok <==> (crate::proxy::http::http_status(response) matches Some(s) && 200 <= s < 300)
        }),
{
}

/// The answer to `CONNECT` is read in bounded memory: while it is being read it stays
/// below the size limit, and no read takes it past the limit plus one chunk.
pub proof fn lemma_http_response_bounded(m: TunnelModel, data: Seq<u8>)
    requires
        model_wf(m),
        m.phase == TunnelPhase::HttpAwaitingResponse,
        read_fits(m, data),
    ensures
        model_received(m, data).1.response.len() < MAX_CONNECT_RESPONSE_SIZE + CONNECT_READ_CHUNK,
        model_received(m, data).1.phase == TunnelPhase::HttpAwaitingResponse ==> model_received(m, data).1.response.len() < MAX_CONNECT_RESPONSE_SIZE,
{
}

/// A SOCKS5 proxy that needs no authentication and grants the connection opens the
/// tunnel: the client sends the greeting offering only "no authentication", then the
/// connect request for the target, and after the proxy's IPv4 reply and bound address
/// the tunnel is established.
pub proof fn lemma_socks5_without_auth_opens_tunnel(m: TunnelModel, bound: Seq<u8>)
    requires
        model_wf(m),
        m.phase == TunnelPhase::Start,
        m.scheme != ProxyScheme::Http,
        m.credentials is None,
        socks5_connect_bytes(m.host, m.ip, m.port) is Ok,
        bound.len() == 6,
    ensures
        ({
            let (s1, m1) = model_start(m);
            let (s2, m2) = model_sent(m1);
            let (s3, m3) = model_received(m2, seq![5u8, 0u8]);
            let (s4, m4) = model_sent(m3);
            let (s5, m5) = model_received(m4, seq![5u8, 0u8, 0u8, 1u8]);
            let (s6, m6) = model_received(m5, bound);
            &&& s1 == TunnelStep::Send(seq![5u8, 1u8, 0u8])
            &&& s2 == TunnelStep::ReadExact(2)
            &&& s3 == TunnelStep::Send(socks5_connect_bytes(m.host, m.ip, m.port)->Ok_0)
            &&& s4 == TunnelStep::ReadExact(4)
            &&& s5 == TunnelStep::ReadExact(6)
            &&& s6 == TunnelStep::Established
            &&& m6.phase == TunnelPhase::Established
        }),
{
    let (s1, m1) = model_start(m);
    let (s2, m2) = model_sent(m1);
    assert(m2.phase == TunnelPhase::Socks5AwaitingMethod);
    assert(socks5_method_outcome(seq![5u8, 0u8], false) == Ok::<Socks5Method, ProxyError>(Socks5Method::NoAuth));
    let (s3, m3) = model_received(m2, seq![5u8, 0u8]);
    assert(m3.phase == TunnelPhase::Socks5ConnectSent);
    let (s4, m4) = model_sent(m3);
    assert(socks5_reply_outcome(seq![5u8, 0u8, 0u8, 1u8]) == Ok::<BoundAddress, ProxyError>(BoundAddress::Fixed(4)));
    let (s5, m5) = model_received(m4, seq![5u8, 0u8, 0u8, 1u8]);
    assert(m5.phase == TunnelPhase::Socks5AwaitingBoundAddress);
}

/// A SOCKS5 proxy that asks for username/password and accepts them opens the tunnel:
/// the greeting offers both methods, the credentials follow in full, then the connect
/// request; a reply with a bound host name is read past by its length byte.
pub proof fn lemma_socks5_with_auth_opens_tunnel(m: TunnelModel, name_len: u8, bound: Seq<u8>)
    requires
        model_wf(m),
        m.phase == TunnelPhase::Start,
        m.scheme != ProxyScheme::Http,
        m.credentials is Some,
        socks5_userpass_bytes(m.credentials->Some_0.0, m.credentials->Some_0.1) is Ok,
        socks5_connect_bytes(m.host, m.ip, m.port) is Ok,
        bound.len() == name_len + 2,
    ensures
        ({
            let (s1, m1) = model_start(m);
            let (s2, m2) = model_sent(m1);
            let (s3, m3) = model_received(m2, seq![5u8, 2u8]);
            let (s4, m4) = model_sent(m3);
            let (s5, m5) = model_received(m4, seq![1u8, 0u8]);
            let (s6, m6) = model_sent(m5);
            let (s7, m7) = model_received(m6, seq![5u8, 0u8, 0u8, 3u8]);
            let (s8, m8) = model_received(m7, seq![name_len]);
            let (s9, m9) = model_received(m8, bound);
            &&& s1 == TunnelStep::Send(seq![5u8, 2u8, 0u8, 2u8])
            &&& s2 == TunnelStep::ReadExact(2)
            &&& s3 == TunnelStep::Send(socks5_userpass_bytes(m.credentials->Some_0.0, m.credentials->Some_0.1)->Ok_0)
            &&& s4 == TunnelStep::ReadExact(2)
            &&& s5 == TunnelStep::Send(socks5_connect_bytes(m.host, m.ip, m.port)->Ok_0)
            &&& s6 == TunnelStep::ReadExact(4)
            &&& s7 == TunnelStep::ReadExact(1)
            &&& s8 == TunnelStep::ReadExact(name_len as nat + 2)
            &&& s9 == TunnelStep::Established
        }),
{
    let (s1, m1) = model_start(m);
    let (s2, m2) = model_sent(m1);
    assert(socks5_method_outcome(seq![5u8, 2u8], true) == Ok::<Socks5Method, ProxyError>(Socks5Method::UsernamePassword));
    let (s3, m3) = model_received(m2, seq![5u8, 2u8]);
    assert(m3.phase == TunnelPhase::Socks5CredentialsSent);
    let (s4, m4) = model_sent(m3);
    assert(socks5_auth_accepted(seq![1u8, 0u8]));
    let (s5, m5) = model_received(m4, seq![1u8, 0u8]);
    assert(m5.phase == TunnelPhase::Socks5ConnectSent);
    let (s6, m6) = model_sent(m5);
    assert(socks5_reply_outcome(seq![5u8, 0u8, 0u8, 3u8]) == Ok::<BoundAddress, ProxyError>(BoundAddress::LengthPrefixed));
    let (s7, m7) = model_received(m6, seq![5u8, 0u8, 0u8, 3u8]);
    assert(m7.phase == TunnelPhase::Socks5AwaitingNameLength);
    let (s8, m8) = model_received(m7, seq![name_len]);
    assert(m8.phase == TunnelPhase::Socks5AwaitingBoundAddress);
}

/// An HTTP proxy opens the tunnel when its answer, read in one piece, is a complete head
/// whose status is in `200..300`; before that the client sent exactly the `CONNECT`
/// request for `host:port`, with the configured credentials.
pub proof fn lemma_http_success_opens_tunnel(m: TunnelModel, answer: Seq<u8>)
    requires
        model_wf(m),
        m.phase == TunnelPhase::Start,
        m.scheme == ProxyScheme::Http,
        answer.len() <= CONNECT_READ_CHUNK,
        has_head_terminator(answer),
        crate::proxy::http::http_status(answer) matches Some(s) && 200 <= s < 300,
    ensures
        ({
            let (s1, m1) = model_start(m);
            let (s2, m2) = model_sent(m1);
            let (s3, m3) = model_received(m2, answer);
            &&& s1 == TunnelStep::Send(http_connect_request(authority(m.host, m.port), m.credentials))
            &&& s2 == TunnelStep::ReadSome(CONNECT_READ_CHUNK as nat)
            &&& s3 == TunnelStep::Established
            &&& m3.phase == TunnelPhase::Established
        }),
{
    let (s1, m1) = model_start(m);
    let (s2, m2) = model_sent(m1);
    assert(m2.response + answer =~= answer);
}

/// When the proxy answers the greeting with "no authentication" (`[5, 0]`), the
/// handshake goes straight on to the connect request for the target, with or without
/// configured credentials; no credentials are sent.
pub proof fn lemma_no_auth_choice_sends_connect(m: TunnelModel)
    requires
        m.phase == TunnelPhase::Socks5AwaitingMethod,
    ensures
        socks5_connect_bytes(m.host, m.ip, m.port) is Ok ==> {
            &&& model_received(m, seq![5u8, 0u8]).0 == TunnelStep::Send(socks5_connect_bytes(m.host, m.ip, m.port)->Ok_0)
            &&& model_received(m, seq![5u8, 0u8]).1.phase == TunnelPhase::Socks5ConnectSent
        },
        socks5_connect_bytes(m.host, m.ip, m.port) is Err ==> model_received(m, seq![5u8, 0u8]).0
            == TunnelStep::Failed(socks5_connect_bytes(m.host, m.ip, m.port)->Err_0),
{
    crate::proxy::socks5::lemma_method_reply_meaning(5, 0, m.credentials is Some);
}

/// Each step of a SOCKS5 handshake, for every target and credentials. The greeting
/// offers username/password exactly when there are credentials; after each message the
/// machine reads its two-byte or four-byte answer; an accepted login (`[1, 0]`) goes on to
/// the connect request and any other answer fails the login; the head of the reply says
/// how much bound address to read past (4 or 16 octets, or a name after its length byte,
/// each with the two port bytes), a refusal fails with the proxy's code, and once the
/// bound address was read the tunnel is open.
pub proof fn lemma_socks5_steps(m: TunnelModel, status: u8, code: u8, reserved: u8, n: u8, bound: Seq<u8>)
    ensures
        (m.phase == TunnelPhase::Start && m.scheme != ProxyScheme::Http) ==> model_start(m).0
            == TunnelStep::Send(if m.credentials is Some { seq![5u8, 2u8, 0u8, 2u8] } else { seq![5u8, 1u8, 0u8] }),
        m.phase == TunnelPhase::Socks5GreetingSent ==> model_sent(m).0 == TunnelStep::ReadExact(2),
        m.phase == TunnelPhase::Socks5CredentialsSent ==> model_sent(m).0 == TunnelStep::ReadExact(2),
        m.phase == TunnelPhase::Socks5ConnectSent ==> model_sent(m).0 == TunnelStep::ReadExact(4),
        (m.phase == TunnelPhase::Socks5AwaitingAuthReply && socks5_connect_bytes(m.host, m.ip, m.port) is Ok) ==>
            model_received(m, seq![1u8, 0u8]).0 == TunnelStep::Send(socks5_connect_bytes(m.host, m.ip, m.port)->Ok_0),
        (m.phase == TunnelPhase::Socks5AwaitingAuthReply && !(status == 1 && code == 0)) ==>
            model_received(m, seq![status, code]).0 == TunnelStep::Failed(ProxyError::AuthFailed),
        m.phase == TunnelPhase::Socks5AwaitingReplyHeader ==> {
            &&& model_received(m, seq![5u8, 0u8, reserved, 1u8]).0 == TunnelStep::ReadExact(6)
            &&& model_received(m, seq![5u8, 0u8, reserved, 4u8]).0 == TunnelStep::ReadExact(18)
            &&& model_received(m, seq![5u8, 0u8, reserved, 3u8]).0 == TunnelStep::ReadExact(1)
            &&& (code != 0 ==> model_received(m, seq![5u8, code, reserved, n]).0 == TunnelStep::Failed(ProxyError::ConnectFailed(code)))
        },
        m.phase == TunnelPhase::Socks5AwaitingNameLength ==> model_received(m, seq![n]).0 == TunnelStep::ReadExact(n as nat + 2),
        m.phase == TunnelPhase::Socks5AwaitingBoundAddress ==> {
            &&& model_received(m, bound).0 == TunnelStep::Established
            &&& model_received(m, bound).1.phase == TunnelPhase::Established
        },
{
    crate::proxy::socks5::lemma_connect_reply_meaning(5, 0, reserved, 1);
    crate::proxy::socks5::lemma_connect_reply_meaning(5, 0, reserved, 4);
    crate::proxy::socks5::lemma_connect_reply_meaning(5, 0, reserved, 3);
    crate::proxy::socks5::lemma_connect_reply_meaning(5, code, reserved, n);
}

/// The HTTP handshake sends `CONNECT host:port` (with the target, never the proxy) and
/// then reads the answer in chunks.
pub proof fn lemma_http_steps(m: TunnelModel)
    ensures
        (m.phase == TunnelPhase::Start && m.scheme == ProxyScheme::Http) ==> model_start(m).0
            == TunnelStep::Send(http_connect_request(m.host + seq![58u8] + crate::bytes::decimal(m.port as nat), m.credentials)),
        m.phase == TunnelPhase::HttpRequestSent ==> model_sent(m).0 == TunnelStep::ReadSome(512),
{
}

/// The state a handshake with `proxy` for a tunnel to `host:port` starts in. Of the
/// proxy it keeps the protocol and the credentials; the proxy's own host and port are
/// where the caller connects, and never enter the handshake.
pub open spec fn initial_model(proxy: ProxyConfig, host: Seq<u8>, ip: Option<HostAddr>, port: u16) -> TunnelModel {
    TunnelModel {
        scheme: proxy.scheme,
        credentials: credentials_of(proxy.auth),
        host,
        ip,
        port,
        phase: TunnelPhase::Start,
        response: seq![],
        expected: 0,
    }
}

/// The model with another protocol.
pub open spec fn with_scheme(m: TunnelModel, scheme: ProxyScheme) -> TunnelModel {
    TunnelModel { scheme, ..m }
}

/// What the caller reports after the first step, in order: `None` for a write that was
/// done, `Some(data)` for what a read gave.
pub open spec fn run_reports(m: TunnelModel, reports: Seq<Option<Seq<u8>>>) -> (Seq<TunnelStep>, TunnelModel)
    decreases reports.len(),
{
    if reports.len() == 0 {
        (seq![], m)
    } else {
        let (step, next) = match reports[0] {
            None => model_sent(m),
            Some(data) => model_received(m, data),
        };
        let (rest, last) = run_reports(next, reports.drop_first());
        (seq![step] + rest, last)
    }
}

/// A whole handshake: the first step, then one step for each report, with every step
/// the machine took (what it wrote, what it asked to read, how it ended) and the state
/// it ended in.
pub open spec fn run_handshake(m: TunnelModel, reports: Seq<Option<Seq<u8>>>) -> (Seq<TunnelStep>, TunnelModel) {
    let (first, next) = model_start(m);
    let (rest, last) = run_reports(next, reports);
    (seq![first] + rest, last)
}

/// After the first step, the protocol is not read again: two states that differ only in
/// it take the same steps on the same reports.
pub proof fn lemma_reports_ignore_scheme(m: TunnelModel, reports: Seq<Option<Seq<u8>>>, a: ProxyScheme, b: ProxyScheme)
    ensures
        run_reports(with_scheme(m, a), reports).0 == run_reports(with_scheme(m, b), reports).0,
        run_reports(with_scheme(m, a), reports).1 == with_scheme(run_reports(with_scheme(m, b), reports).1, a),
    decreases reports.len(),
{
    if reports.len() > 0 {
        let (_, na) = match reports[0] {
            None => model_sent(with_scheme(m, a)),
            Some(data) => model_received(with_scheme(m, a), data),
        };
        let (_, nb) = match reports[0] {
            None => model_sent(with_scheme(m, b)),
            Some(data) => model_received(with_scheme(m, b), data),
        };
        assert(na == with_scheme(nb, a));
        assert(nb == with_scheme(nb, b));
        lemma_reports_ignore_scheme(nb, reports.drop_first(), a, b);
    }
}

/// The proxy's host and port, and the choice between SOCKS5 and SOCKS5h, make no
/// difference to the handshake: with the same credentials, the same target and the same
/// answers from the proxy, it writes the same bytes, asks for the same reads and ends the
/// same way. Only the target and the credentials reach the wire.
pub proof fn lemma_handshake_ignores_proxy_address(
    p1: ProxyConfig,
    p2: ProxyConfig,
    host: Seq<u8>,
    ip: Option<HostAddr>,
    port: u16,
    reports: Seq<Option<Seq<u8>>>,
)
    requires
        p1.auth == p2.auth,
        p1.scheme == p2.scheme || (p1.scheme != ProxyScheme::Http && p2.scheme != ProxyScheme::Http),
    ensures
        run_handshake(initial_model(p1, host, ip, port), reports).0
            == run_handshake(initial_model(p2, host, ip, port), reports).0,
        run_handshake(initial_model(p1, host, ip, port), reports).1
            == with_scheme(run_handshake(initial_model(p2, host, ip, port), reports).1, p1.scheme),
{
    let m1 = initial_model(p1, host, ip, port);
    let m2 = initial_model(p2, host, ip, port);
    assert(m1 == with_scheme(m2, p1.scheme));
    let (f1, n1) = model_start(m1);
    let (f2, n2) = model_start(m2);
    assert(f1 == f2);
    assert(n1 == with_scheme(n2, p1.scheme));
    assert(n2 == with_scheme(n2, p2.scheme));
    lemma_reports_ignore_scheme(n2, reports, p1.scheme, p2.scheme);
}

/// A handshake with a proxy for one target.
pub struct ProxyTunnel {
    scheme: ProxyScheme,
    credentials: Option<Credentials>,
    host: Vec<u8>,
    ip: Option<HostAddr>,
    port: u16,
    phase: TunnelPhase,
    response: Vec<u8>,
    expected: usize,
}

impl View for ProxyTunnel {
    type V = TunnelModel;

    closed spec fn view(&self) -> TunnelModel {
        TunnelModel {
            scheme: self.scheme,
            credentials: credentials_view(self.credentials),
            host: self.host@,
            ip: self.ip,
            port: self.port,
            phase: self.phase,
            response: self.response@,
            expected: self.expected as nat,
        }
    }
}

impl ProxyTunnel {
    /// Prepares the handshake with `proxy` for a tunnel to `host:port`. `ip` holds the
    /// octets of `host` when it is an IP address literal; SOCKS5 then sends the address
    /// instead of the name.
    pub fn new(proxy: &ProxyConfig, host: &str, ip: Option<HostAddr>, port: u16) -> (res: ProxyTunnel)
        ensures
            res@ == initial_model(*proxy, host.spec_bytes(), ip, port),
            model_wf(res@),
    {
        let mut target: Vec<u8> = Vec::new();
        push_all(&mut target, host.as_bytes());
        ProxyTunnel {
            scheme: proxy.scheme,
            credentials: Credentials::from_optional(&proxy.auth),
            host: target,
            ip,
            port,
            phase: TunnelPhase::Start,
            response: Vec::new(),
            expected: 0,
        }
    }

    /// Where the handshake stands.
    pub fn phase(&self) -> (res: TunnelPhase)
        ensures
            res == self@.phase,
    {
        self.phase
    }

    /// The first message: the `CONNECT` request or the SOCKS5 greeting.
    pub fn start(&mut self) -> (res: TunnelAction)
        requires
            old(self)@.phase == TunnelPhase::Start,
            model_wf(old(self)@),
        ensures
            (res@, final(self)@) == model_start(old(self)@),
            model_wf(final(self)@),
    {
        match self.scheme {
            ProxyScheme::Http => {
                let target = authority_bytes(self.host.as_slice(), self.port);
                let request = build_http_connect_request(target.as_slice(), &self.credentials);
                self.phase = TunnelPhase::HttpRequestSent;
                self.response = Vec::new();
                self.expected = 0;
                TunnelAction::Send(request)
            },
            _ => {
                let greeting = socks5_greeting(self.credentials.is_some());
                self.phase = TunnelPhase::Socks5GreetingSent;
                self.response = Vec::new();
                self.expected = 0;
                TunnelAction::Send(greeting)
            },
        }
    }

    /// The message asked for was written and flushed; the answer to read.
    pub fn sent(&mut self) -> (res: TunnelAction)
        requires
            awaits_send(old(self)@.phase),
            model_wf(old(self)@),
        ensures
            (res@, final(self)@) == model_sent(old(self)@),
            model_wf(final(self)@),
    {
        match self.phase {
            TunnelPhase::HttpRequestSent => {
                self.phase = TunnelPhase::HttpAwaitingResponse;
                self.response = Vec::new();
                self.expected = 0;
                TunnelAction::ReadSome(CONNECT_READ_CHUNK)
            },
            TunnelPhase::Socks5GreetingSent => {
                self.phase = TunnelPhase::Socks5AwaitingMethod;
                self.expected = 2;
                TunnelAction::ReadExact(2)
            },
            TunnelPhase::Socks5CredentialsSent => {
                self.phase = TunnelPhase::Socks5AwaitingAuthReply;
                self.expected = 2;
                TunnelAction::ReadExact(2)
            },
            _ => {
                self.phase = TunnelPhase::Socks5AwaitingReplyHeader;
                self.expected = 4;
                TunnelAction::ReadExact(4)
            },
        }
    }

    fn send_connect_request(&mut self) -> (res: TunnelAction)
        requires
            model_wf(old(self)@),
        ensures
            (res@, final(self)@) == connect_step(old(self)@),
            model_wf(final(self)@),
    {
        match socks5_connect_request(self.host.as_slice(), &self.ip, self.port) {
            Ok(request) => {
                self.phase = TunnelPhase::Socks5ConnectSent;
                self.expected = 0;
                TunnelAction::Send(request)
            },
            Err(e) => {
                self.phase = TunnelPhase::Failed;
                self.expected = 0;
                TunnelAction::Failed(e)
            },
        }
    }

    /// `data` was read as asked; the next step.
    pub fn received(&mut self, data: &[u8]) -> (res: TunnelAction)
        requires
            awaits_read(old(self)@.phase),
            read_fits(old(self)@, data@),
            model_wf(old(self)@),
        ensures
            (res@, final(self)@) == model_received(old(self)@, data@),
            model_wf(final(self)@),
    {
        match self.phase {
            TunnelPhase::HttpAwaitingResponse => {
                push_all(&mut self.response, data);
                if data.len() == 0 || contains_head_terminator(self.response.as_slice()) {
                    match check_http_connect_response(self.response.as_slice()) {
                        Ok(()) => {
                            self.phase = TunnelPhase::Established;
                            self.expected = 0;
                            TunnelAction::Established
                        },
                        Err(e) => {
                            self.phase = TunnelPhase::Failed;
                            self.expected = 0;
                            TunnelAction::Failed(e)
                        },
                    }
                } else if self.response.len() >= MAX_CONNECT_RESPONSE_SIZE {
                    self.phase = TunnelPhase::Failed;
                    self.expected = 0;
                    TunnelAction::Failed(ProxyError::ResponseTooLarge)
                } else {
                    TunnelAction::ReadSome(CONNECT_READ_CHUNK)
                }
            },
            TunnelPhase::Socks5AwaitingMethod => {
                match socks5_method_choice(data, self.credentials.is_some()) {
                    Ok(Socks5Method::NoAuth) => self.send_connect_request(),
                    Ok(Socks5Method::UsernamePassword) => {
                        let request = match &self.credentials {
                            Some(c) => socks5_userpass_request(c),
                            None => Err(ProxyError::AuthRequired),
                        };
                        match request {
                            Ok(bytes) => {
                                self.phase = TunnelPhase::Socks5CredentialsSent;
                                self.expected = 0;
                                TunnelAction::Send(bytes)
                            },
                            Err(e) => {
                                self.phase = TunnelPhase::Failed;
                                self.expected = 0;
                                TunnelAction::Failed(e)
                            },
                        }
                    },
                    Err(e) => {
                        self.phase = TunnelPhase::Failed;
                        self.expected = 0;
                        TunnelAction::Failed(e)
                    },
                }
            },
            TunnelPhase::Socks5AwaitingAuthReply => {
                match socks5_check_auth_reply(data) {
                    Ok(()) => self.send_connect_request(),
                    Err(e) => {
                        self.phase = TunnelPhase::Failed;
                        self.expected = 0;
                        TunnelAction::Failed(e)
                    },
                }
            },
            TunnelPhase::Socks5AwaitingReplyHeader => {
                match socks5_check_connect_reply(data) {
                    Ok(BoundAddress::Fixed(n)) => {
                        self.phase = TunnelPhase::Socks5AwaitingBoundAddress;
                        self.expected = n + 2;
                        TunnelAction::ReadExact(n + 2)
                    },
                    Ok(BoundAddress::LengthPrefixed) => {
                        self.phase = TunnelPhase::Socks5AwaitingNameLength;
                        self.expected = 1;
                        TunnelAction::ReadExact(1)
                    },
                    Err(e) => {
                        self.phase = TunnelPhase::Failed;
                        self.expected = 0;
                        TunnelAction::Failed(e)
                    },
                }
            },
            TunnelPhase::Socks5AwaitingNameLength => {
                let n = data[0] as usize + 2;
                self.phase = TunnelPhase::Socks5AwaitingBoundAddress;
                self.expected = n;
                TunnelAction::ReadExact(n)
            },
            _ => {
                self.phase = TunnelPhase::Established;
                self.expected = 0;
                TunnelAction::Established
            },
        }
    }
}

} // verus!
