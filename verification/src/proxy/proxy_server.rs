//! The local forwarding proxy: the browser's CONNECT request, the handshake
//! with the upstream proxy, and the life of one tunnel.
//!
//! Sockets are not touched here. A tunnel is a state machine: whoever owns
//! the sockets reports what happened on them as events and carries out the
//! actions that the machine answers with.

use vstd::prelude::*;
use vstd::string::StringExecFns;
use vstd::string::StrSliceExecFns;
use vstd::utf8::encode_utf8;
use crate::codec::{base64_encode, base64_fits, base64_standard, lossy_text, text_of};
use crate::proxy::proxy_manager::ProxyConfig;
use crate::text::{
    append_decimal, ascii_bytes_read_as_themselves, ascii_chars, chars_of, decimal_text,
    decimal_u16, find_char, is_ascii_bytes, parse_u16, position_of, position_of_bounds,
    same_text, skip_spaces, skip_word, slice_of, word_end, word_start,
};

verus! {

/// The forwarding proxy of one profile. It keeps no state of its own: every
/// accepted connection gets a `Tunnel`.
#[derive(Clone, Copy, Debug)]
pub struct ProxyServer {}

/// The kind of upstream proxy, which fixes the handshake.
#[derive(Clone, Copy, Debug, PartialEq, Eq, Structural)]
pub enum UpstreamKind {
    /// An HTTP proxy, asked with CONNECT and basic credentials.
    Http,
    /// A SOCKS5 proxy with username and password.
    Socks5,
}

/// Why a browser's request opens no tunnel.
#[derive(Clone, Copy, Debug, PartialEq, Eq, Structural)]
pub enum RequestError {
    /// The request line has fewer than three words.
    Malformed,
    /// The request line asks for something other than CONNECT.
    NotConnect,
}

/// Where a tunnel leads.
#[derive(Debug)]
pub struct TunnelTarget {
    /// The target as the browser wrote it, `host:port`.
    pub authority: String,
    pub host: String,
    pub port: u16,
}

/// The mathematical content of a `TunnelTarget`.
pub struct TargetView {
    pub authority: Seq<char>,
    pub host: Seq<char>,
    pub port: u16,
}

impl View for TunnelTarget {
    type V = TargetView;

    open spec fn view(&self) -> TargetView {
        TargetView { authority: self.authority@, host: self.host@, port: self.port }
    }
}

/// The kind that a protocol name stands for.
pub open spec fn protocol_kind(protocol: Seq<char>) -> Option<UpstreamKind> {
    if protocol == "socks5"@ {
        Some(UpstreamKind::Socks5)
    } else if protocol == "http"@ {
        Some(UpstreamKind::Http)
    } else {
        None
    }
}

/// The text up to the first line feed.
pub open spec fn first_line(text: Seq<char>) -> Seq<char> {
    text.take(position_of(text, '\n', 0))
}

/// The host of `host:port`: what stands before the first colon.
pub open spec fn authority_host(authority: Seq<char>) -> Seq<char> {
    authority.take(position_of(authority, ':', 0))
}

/// The port of `host:port`: the number between the first colon and the next,
/// and 80 where there is none or it is no 16-bit number.
pub open spec fn authority_port(authority: Seq<char>) -> u16 {
    let colon = position_of(authority, ':', 0);
    if colon >= authority.len() {
        80
    } else {
        let end = position_of(authority, ':', colon + 1);
        match decimal_u16(authority.subrange(colon + 1, end)) {
            Some(port) => port,
            None => 80,
        }
    }
}

/// The target that an authority names.
pub open spec fn target_of(authority: Seq<char>) -> TargetView {
    TargetView {
        authority,
        host: authority_host(authority),
        port: authority_port(authority),
    }
}

/// What a browser's request asks for. Only the first line counts: its first
/// word must be `CONNECT`, its second word is the target, and a third word
/// must follow.
pub open spec fn parsed_request(text: Seq<char>) -> Result<TargetView, RequestError> {
    let line = first_line(text);
    let method_start = word_start(line, 0);
    let method_end = word_end(line, method_start);
    let target_start = word_start(line, method_end);
    let target_end = word_end(line, target_start);
    let version_start = word_start(line, target_end);
    if version_start >= line.len() {
        Err(RequestError::Malformed)
    } else if line.subrange(method_start, method_end) != "CONNECT"@ {
        Err(RequestError::NotConnect)
    } else {
        Ok(target_of(line.subrange(target_start, target_end)))
    }
}

/// The value of a `Proxy-Authorization` header for basic credentials.
pub open spec fn basic_authorization_text(username: Seq<char>, password: Seq<char>) -> Seq<char> {
    "Basic "@ + base64_standard(encode_utf8(username + ":"@ + password))
}

/// The request that asks an HTTP proxy for a tunnel to `authority`.
pub open spec fn connect_request_text(
    authority: Seq<char>,
    username: Seq<char>,
    password: Seq<char>,
) -> Seq<char> {
    "CONNECT "@ + authority + " HTTP/1.1\r\nHost: "@ + authority + "\r\nProxy-Authorization: "@
        + basic_authorization_text(username, password) + "\r\n\r\n"@
}

/// The credentials are short enough to be encoded.
pub open spec fn credentials_fit(username: Seq<char>, password: Seq<char>) -> bool {
    base64_fits(encode_utf8(username + ":"@ + password).len())
}

/// The status of an HTTP reply: the second word of its first line, after
/// the protocol version. A reply without one has the empty status.
pub open spec fn reply_status(reply: Seq<char>) -> Seq<char> {
    let line = first_line(reply);
    let version_start = word_start(line, 0);
    let version_end = word_end(line, version_start);
    let status_start = word_start(line, version_end);
    let status_end = word_end(line, status_start);
    line.subrange(status_start, status_end)
}

/// An HTTP proxy's reply grants the tunnel: its status is `200`, whatever
/// the protocol version and the reason phrase.
pub open spec fn grants_tunnel(reply: Seq<char>) -> bool {
    reply_status(reply) == "200"@
}

/// The reply that tells the browser that its tunnel stands.
pub open spec fn established_text() -> Seq<char> {
    "HTTP/1.1 200 Connection established\r\n\r\n"@
}

impl UpstreamKind {
    /// Reads a protocol name: `socks5` or `http`.
    pub fn of_protocol(protocol: &str) -> (r: Option<UpstreamKind>)
        ensures
            r == protocol_kind(protocol@),
    {
        let name = chars_of(protocol);
        if same_text(&name, &chars_of("socks5")) {
            Some(UpstreamKind::Socks5)
        } else if same_text(&name, &chars_of("http")) {
            Some(UpstreamKind::Http)
        } else {
            None
        }
    }
}

impl TunnelTarget {
    /// Splits `host:port`.
    pub fn of_authority(authority: &str) -> (r: TunnelTarget)
        ensures
            r@ == target_of(authority@),
    {
        let chars = chars_of(authority);
        let colon = find_char(&chars, ':', 0);
        proof {
            position_of_bounds(chars@, ':', 0);
        }
        let host = String::from_str(authority.substring_char(0, colon));
        assert(chars@.subrange(0, colon as int) =~= chars@.take(colon as int));
        let port: u16 = if colon >= chars.len() {
            80
        } else {
            let end = find_char(&chars, ':', colon + 1);
            let digits = slice_of(&chars, colon + 1, end);
            match parse_u16(&digits) {
                Some(port) => port,
                None => 80,
            }
        };
        TunnelTarget { authority: String::from_str(authority), host, port }
    }
}

/// Reads the browser's request.
pub fn parse_connect_request(text: &str) -> (r: Result<TunnelTarget, RequestError>)
    ensures
        match parsed_request(text@) {
            Ok(target) => r matches Ok(t) && t@ == target,
            Err(e) => r == Err::<TunnelTarget, RequestError>(e),
        },
{
    let chars = chars_of(text);
    let line_end = find_char(&chars, '\n', 0);
    let line = slice_of(&chars, 0, line_end);
    assert(line@ =~= first_line(text@));
    let method_start = skip_spaces(&line, 0);
    let method_end = skip_word(&line, method_start);
    let target_start = skip_spaces(&line, method_end);
    let target_end = skip_word(&line, target_start);
    let version_start = skip_spaces(&line, target_end);
    if version_start >= line.len() {
        return Err(RequestError::Malformed);
    }
    let method = slice_of(&line, method_start, method_end);
    if !same_text(&method, &chars_of("CONNECT")) {
        return Err(RequestError::NotConnect);
    }
    let authority = text.substring_char(target_start, target_end);
    assert(authority@ =~= line@.subrange(target_start as int, target_end as int));
    Ok(TunnelTarget::of_authority(authority))
}

/// Writes the value of a `Proxy-Authorization` header for basic credentials.
/// There is none for credentials too long to be encoded.
pub fn basic_authorization(username: &str, password: &str) -> (r: Option<String>)
    ensures
        match r {
            Some(value) => credentials_fit(username@, password@) && value@
                == basic_authorization_text(username@, password@),
            None => !credentials_fit(username@, password@),
        },
{
    let mut credentials = String::new();
    credentials.append(username);
    credentials.append(":");
    credentials.append(password);
    assert(credentials@ =~= username@ + ":"@ + password@);
    let bytes = credentials.as_str().as_bytes();
    if bytes.len() / 3 > (usize::MAX - 4) / 4 {
        return None;
    }
    let encoded = base64_encode(bytes);
    let mut value = String::from_str("Basic ");
    value.append(encoded.as_str());
    Some(value)
}

/// Writes the request that asks an HTTP proxy for a tunnel. There is none
/// for credentials too long to be encoded.
pub fn connect_request(authority: &str, username: &str, password: &str) -> (r: Option<String>)
    ensures
        match r {
            Some(request) => credentials_fit(username@, password@) && request@
                == connect_request_text(authority@, username@, password@),
            None => !credentials_fit(username@, password@),
        },
{
    let authorization = match basic_authorization(username, password) {
        Some(value) => value,
        None => {
            return None;
        },
    };
    let mut request = String::new();
    request.append("CONNECT ");
    request.append(authority);
    request.append(" HTTP/1.1\r\nHost: ");
    request.append(authority);
    request.append("\r\nProxy-Authorization: ");
    request.append(authorization.as_str());
    request.append("\r\n\r\n");
    assert(request@ =~= connect_request_text(authority@, username@, password@));
    Some(request)
}

/// Whether an HTTP proxy's reply grants the tunnel.
pub fn tunnel_granted(reply: &str) -> (r: bool)
    ensures
        r == grants_tunnel(reply@),
{
    let chars = chars_of(reply);
    let line_end = find_char(&chars, '\n', 0);
    let line = slice_of(&chars, 0, line_end);
    assert(line@ =~= first_line(reply@));
    let version_start = skip_spaces(&line, 0);
    let version_end = skip_word(&line, version_start);
    let status_start = skip_spaces(&line, version_end);
    let status_end = skip_word(&line, status_start);
    let status = slice_of(&line, status_start, status_end);
    same_text(&status, &chars_of("200"))
}

/// The reply that tells the browser that its tunnel stands.
pub fn established_reply() -> (r: &'static str)
    ensures
        r@ == established_text(),
{
    "HTTP/1.1 200 Connection established\r\n\r\n"
}

/// How far a tunnel has come.
#[derive(Clone, Copy, Debug, PartialEq, Eq, Structural)]
pub enum Phase {
    /// The browser's request line is not complete yet.
    AwaitRequest,
    /// The HTTP upstream was asked; its reply is awaited.
    NegotiatingHttp,
    /// The SOCKS5 handshake is under way.
    NegotiatingSocks5,
    /// The upstream stands; the browser is being told.
    Confirming,
    /// Bytes flow both ways.
    Relaying,
    /// Both sides are closed. Nothing follows.
    Closed,
}

/// What happened on a tunnel's sockets.
#[derive(Debug)]
pub enum TunnelEvent {
    /// The browser sent these bytes.
    ClientData(Vec<u8>),
    /// The browser's side ended, by end of stream or by an error.
    ClientClosed,
    /// The HTTP upstream answered the CONNECT request with these bytes.
    UpstreamData(Vec<u8>),
    /// The SOCKS5 handshake succeeded.
    UpstreamReady,
    /// The upstream's side ended or failed: no connection, a failed
    /// handshake, end of stream, an error.
    UpstreamClosed,
    /// The confirmation was written to the browser.
    Sent,
}

/// What the owner of the sockets has to do next.
#[derive(Debug)]
pub enum TunnelAction {
    /// Read more from the browser and report it.
    ReadClient,
    /// Connect to the HTTP upstream at `address`, send `request`, read its
    /// reply once and report it.
    NegotiateHttp { address: String, request: String },
    /// Perform the SOCKS5 handshake with username and password, and report
    /// how it ended.
    NegotiateSocks5 {
        proxy_host: String,
        proxy_port: u16,
        target_host: String,
        target_port: u16,
        username: String,
        password: String,
    },
    /// Write this confirmation to the browser and report `Sent`.
    Confirm(String),
    /// Write the upstream's refusal to the browser as it came, then close
    /// both sides.
    Refuse(Vec<u8>),
    /// Copy bytes in both directions at once, and report the first side
    /// that ends.
    Relay,
    /// Close both sides.
    Close,
    /// Nothing: the tunnel is closed already.
    Nothing,
}

/// One tunnel: a browser connection on its way through the upstream proxy.
#[derive(Debug)]
pub struct Tunnel {
    pub phase: Phase,
    /// The bytes of a request line that is not complete yet.
    pub buffer: Vec<u8>,
    /// The upstream proxy that the profile names.
    pub proxy: ProxyConfig,
}

/// What a tunnel reads in the upstream proxy's record.
pub struct UpstreamView {
    pub protocol: Seq<char>,
    pub host: Seq<char>,
    pub port: Seq<char>,
    pub username: Seq<char>,
    pub password: Seq<char>,
}

/// The mathematical content of a `Tunnel`.
pub struct TunnelView {
    pub phase: Phase,
    pub buffer: Seq<u8>,
    pub upstream: UpstreamView,
}

/// The mathematical content of a `TunnelEvent`.
pub enum EventView {
    ClientData(Seq<u8>),
    ClientClosed,
    UpstreamData(Seq<u8>),
    UpstreamReady,
    UpstreamClosed,
    Sent,
}

/// The mathematical content of a `TunnelAction`.
pub enum ActionView {
    ReadClient,
    NegotiateHttp { address: Seq<char>, request: Seq<char> },
    NegotiateSocks5 {
        proxy_host: Seq<char>,
        proxy_port: u16,
        target_host: Seq<char>,
        target_port: u16,
        username: Seq<char>,
        password: Seq<char>,
    },
    Confirm(Seq<char>),
    Refuse(Seq<u8>),
    Relay,
    Close,
    Nothing,
}

/// What a tunnel reads in a proxy record.
pub open spec fn upstream_of(proxy: ProxyConfig) -> UpstreamView {
    UpstreamView {
        protocol: proxy.protocol@,
        host: proxy.host@,
        port: proxy.port@,
        username: proxy.username@,
        password: proxy.password@,
    }
}

impl View for Tunnel {
    type V = TunnelView;

    open spec fn view(&self) -> TunnelView {
        TunnelView { phase: self.phase, buffer: self.buffer@, upstream: upstream_of(self.proxy) }
    }
}

impl View for TunnelEvent {
    type V = EventView;

    open spec fn view(&self) -> EventView {
        match self {
            TunnelEvent::ClientData(data) => EventView::ClientData(data@),
            TunnelEvent::ClientClosed => EventView::ClientClosed,
            TunnelEvent::UpstreamData(data) => EventView::UpstreamData(data@),
            TunnelEvent::UpstreamReady => EventView::UpstreamReady,
            TunnelEvent::UpstreamClosed => EventView::UpstreamClosed,
            TunnelEvent::Sent => EventView::Sent,
        }
    }
}

impl View for TunnelAction {
    type V = ActionView;

    open spec fn view(&self) -> ActionView {
        match self {
            TunnelAction::ReadClient => ActionView::ReadClient,
            TunnelAction::NegotiateHttp { address, request } => ActionView::NegotiateHttp {
                address: address@,
                request: request@,
            },
            TunnelAction::NegotiateSocks5 {
                proxy_host,
                proxy_port,
                target_host,
                target_port,
                username,
                password,
            } => ActionView::NegotiateSocks5 {
                proxy_host: proxy_host@,
                proxy_port: *proxy_port,
                target_host: target_host@,
                target_port: *target_port,
                username: username@,
                password: password@,
            },
            TunnelAction::Confirm(reply) => ActionView::Confirm(reply@),
            TunnelAction::Refuse(data) => ActionView::Refuse(data@),
            TunnelAction::Relay => ActionView::Relay,
            TunnelAction::Close => ActionView::Close,
            TunnelAction::Nothing => ActionView::Nothing,
        }
    }
}

/// A request line may take this many bytes before its line feed.
pub const REQUEST_LIMIT: usize = 1024;

/// The port of a SOCKS5 proxy whose record names none that is a number.
pub const DEFAULT_SOCKS_PORT: u16 = 1080;

/// The tunnel, closed.
pub open spec fn closed(tunnel: TunnelView) -> TunnelView {
    TunnelView { phase: Phase::Closed, buffer: Seq::empty(), upstream: tunnel.upstream }
}

/// The tunnel in a later phase, its request buffer dropped.
pub open spec fn moved_to(tunnel: TunnelView, phase: Phase) -> TunnelView {
    TunnelView { phase, buffer: Seq::empty(), upstream: tunnel.upstream }
}

/// The SOCKS5 handshake for a target: with the proxy's credentials, to the
/// proxy's port, or to the default port where the record names no number.
pub open spec fn negotiate_socks5(tunnel: TunnelView, target: TargetView) -> (
    TunnelView,
    ActionView,
) {
    let upstream = tunnel.upstream;
    (
        moved_to(tunnel, Phase::NegotiatingSocks5),
        ActionView::NegotiateSocks5 {
            proxy_host: upstream.host,
            proxy_port: match decimal_u16(upstream.port) {
                Some(port) => port,
                None => DEFAULT_SOCKS_PORT,
            },
            target_host: target.host,
            target_port: target.port,
            username: upstream.username,
            password: upstream.password,
        },
    )
}

/// The HTTP handshake for a target: a CONNECT request with basic
/// credentials. Credentials that cannot be encoded close the tunnel.
pub open spec fn negotiate_http(tunnel: TunnelView, target: TargetView) -> (TunnelView, ActionView) {
    let upstream = tunnel.upstream;
    if credentials_fit(upstream.username, upstream.password) {
        (
            moved_to(tunnel, Phase::NegotiatingHttp),
            ActionView::NegotiateHttp {
                address: upstream.host + ":"@ + upstream.port,
                request: connect_request_text(
                    target.authority,
                    upstream.username,
                    upstream.password,
                ),
            },
        )
    } else {
        (closed(tunnel), ActionView::Close)
    }
}

/// The handshake that a target calls for, by the kind of the upstream proxy.
/// An unknown kind closes the tunnel.
pub open spec fn negotiate(tunnel: TunnelView, target: TargetView) -> (TunnelView, ActionView) {
    match protocol_kind(tunnel.upstream.protocol) {
        Some(UpstreamKind::Socks5) => negotiate_socks5(tunnel, target),
        Some(UpstreamKind::Http) => negotiate_http(tunnel, target),
        None => (closed(tunnel), ActionView::Close),
    }
}

/// What the browser's bytes do to a tunnel that awaits its request. The
/// request is read once a line feed has come; a line that grows past the
/// limit without one, an empty read and a request that is no CONNECT close
/// the tunnel.
pub open spec fn receive_request(tunnel: TunnelView, data: Seq<u8>) -> (TunnelView, ActionView) {
    let all = tunnel.buffer + data;
    if data.len() == 0 {
        (closed(tunnel), ActionView::Close)
    } else if all.contains(0x0au8) {
        match parsed_request(text_of(all)) {
            Ok(target) => negotiate(tunnel, target),
            Err(_) => (closed(tunnel), ActionView::Close),
        }
    } else if all.len() >= REQUEST_LIMIT {
        (closed(tunnel), ActionView::Close)
    } else {
        (
            TunnelView { phase: Phase::AwaitRequest, buffer: all, upstream: tunnel.upstream },
            ActionView::ReadClient,
        )
    }
}

/// What an HTTP upstream's reply does to a tunnel. A reply with status 200
/// grants the tunnel, which is confirmed to the browser; any other reply
/// goes to the browser as it came, and the tunnel closes; on an empty reply
/// it just closes.
pub open spec fn receive_reply(tunnel: TunnelView, data: Seq<u8>) -> (TunnelView, ActionView) {
    if data.len() == 0 {
        (closed(tunnel), ActionView::Close)
    } else if grants_tunnel(text_of(data)) {
        (moved_to(tunnel, Phase::Confirming), ActionView::Confirm(established_text()))
    } else {
        (closed(tunnel), ActionView::Refuse(data))
    }
}

/// One step of a tunnel: the state after an event, and what is to be done.
/// An event that the phase does not expect closes the tunnel.
pub open spec fn step_spec(tunnel: TunnelView, event: EventView) -> (TunnelView, ActionView) {
    match tunnel.phase {
        Phase::Closed => (closed(tunnel), ActionView::Nothing),
        Phase::AwaitRequest => match event {
            EventView::ClientData(data) => receive_request(tunnel, data),
            _ => (closed(tunnel), ActionView::Close),
        },
        Phase::NegotiatingHttp => match event {
            EventView::UpstreamData(data) => receive_reply(tunnel, data),
            _ => (closed(tunnel), ActionView::Close),
        },
        Phase::NegotiatingSocks5 => match event {
            EventView::UpstreamReady => (
                moved_to(tunnel, Phase::Confirming),
                ActionView::Confirm(established_text()),
            ),
            _ => (closed(tunnel), ActionView::Close),
        },
        Phase::Confirming => match event {
            EventView::Sent => (moved_to(tunnel, Phase::Relaying), ActionView::Relay),
            _ => (closed(tunnel), ActionView::Close),
        },
        Phase::Relaying => (closed(tunnel), ActionView::Close),
    }
}

/// Whether a run of bytes holds a line feed.
pub fn has_line_feed(data: &Vec<u8>) -> (r: bool)
    ensures
        r == data@.contains(0x0au8),
{
    let mut i: usize = 0;
    while i < data.len()
        invariant
            i <= data.len(),
            forall|k: int| 0 <= k < i ==> data@[k] != 0x0au8,
        decreases data.len() - i,
    {
        if data[i] == 0x0a {
            return true;
        }
        i += 1;
    }
    false
}

/// The loopback address with a port.
pub open spec fn listen_address_text(port: u16) -> Seq<char> {
    "127.0.0.1:"@ + decimal_text(port as nat)
}

impl ProxyServer {
    /// The forwarding proxy.
    pub fn new() -> (r: Self) {
        ProxyServer {  }
    }

    /// The address on which the forwarding proxy listens: the loopback
    /// address with the port that was assigned to the profile.
    pub fn listen_address(port: u16) -> (r: String)
        ensures
            r@ == listen_address_text(port),
    {
        let mut address = String::from_str("127.0.0.1:");
        append_decimal(&mut address, port as u64);
        address
    }

    /// The tunnel for a connection that was just accepted, through the
    /// upstream proxy that the profile names.
    pub fn accept(&self, proxy: &ProxyConfig) -> (tunnel: Tunnel)
        ensures
            tunnel@ == Tunnel::fresh(upstream_of(*proxy)),
    {
        Tunnel::new(proxy)
    }
}

impl Tunnel {
    /// A tunnel that has seen nothing yet.
    pub open spec fn fresh(upstream: UpstreamView) -> TunnelView {
        TunnelView { phase: Phase::AwaitRequest, buffer: Seq::empty(), upstream }
    }

    /// A tunnel for a new connection.
    pub fn new(proxy: &ProxyConfig) -> (tunnel: Tunnel)
        ensures
            tunnel@ == Self::fresh(upstream_of(*proxy)),
    {
        Tunnel { phase: Phase::AwaitRequest, buffer: Vec::new(), proxy: proxy.clone() }
    }

    /// The tunnel's phase.
    pub fn phase(&self) -> (phase: Phase)
        ensures
            phase == self@.phase,
    {
        self.phase
    }

    /// Whether the tunnel is closed for good.
    pub fn is_closed(&self) -> (r: bool)
        ensures
            r == (self@.phase == Phase::Closed),
    {
        match self.phase {
            Phase::Closed => true,
            _ => false,
        }
    }

    fn close(&mut self)
        ensures
            final(self)@ == closed(old(self)@),
    {
        self.phase = Phase::Closed;
        self.buffer = Vec::new();
    }

    fn move_to(&mut self, phase: Phase)
        ensures
            final(self)@ == moved_to(old(self)@, phase),
    {
        self.phase = phase;
        self.buffer = Vec::new();
    }

    /// Starts the handshake with a SOCKS5 proxy.
    fn start_socks5(&mut self, target: TunnelTarget) -> (action: TunnelAction)
        ensures
            (final(self)@, action@) == negotiate_socks5(old(self)@, target@),
    {
        let proxy_port = match parse_u16(&chars_of(self.proxy.port.as_str())) {
            Some(port) => port,
            None => DEFAULT_SOCKS_PORT,
        };
        let action = TunnelAction::NegotiateSocks5 {
            proxy_host: self.proxy.host.clone(),
            proxy_port,
            target_host: target.host,
            target_port: target.port,
            username: self.proxy.username.clone(),
            password: self.proxy.password.clone(),
        };
        self.move_to(Phase::NegotiatingSocks5);
        action
    }

    /// Starts the handshake with an HTTP proxy.
    fn start_http(&mut self, target: TunnelTarget) -> (action: TunnelAction)
        ensures
            (final(self)@, action@) == negotiate_http(old(self)@, target@),
    {
        match connect_request(
            target.authority.as_str(),
            self.proxy.username.as_str(),
            self.proxy.password.as_str(),
        ) {
            Some(request) => {
                let mut address = self.proxy.host.clone();
                address.append(":");
                address.append(self.proxy.port.as_str());
                self.move_to(Phase::NegotiatingHttp);
                TunnelAction::NegotiateHttp { address, request }
            },
            None => {
                self.close();
                TunnelAction::Close
            },
        }
    }

    /// Starts the handshake that the upstream proxy's kind calls for.
    fn start_negotiation(&mut self, target: TunnelTarget) -> (action: TunnelAction)
        ensures
            (final(self)@, action@) == negotiate(old(self)@, target@),
    {
        match UpstreamKind::of_protocol(self.proxy.protocol.as_str()) {
            Some(UpstreamKind::Socks5) => self.start_socks5(target),
            Some(UpstreamKind::Http) => self.start_http(target),
            None => {
                self.close();
                TunnelAction::Close
            },
        }
    }

    /// Takes in bytes of the browser's request.
    fn take_request(&mut self, data: Vec<u8>) -> (action: TunnelAction)
        requires
            old(self)@.phase == Phase::AwaitRequest,
        ensures
            (final(self)@, action@) == receive_request(old(self)@, data@),
    {
        if data.len() == 0 {
            self.close();
            return TunnelAction::Close;
        }
        let mut data = data;
        self.buffer.append(&mut data);
        if has_line_feed(&self.buffer) {
            let text = lossy_text(self.buffer.as_slice());
            match parse_connect_request(text.as_str()) {
                Ok(target) => self.start_negotiation(target),
                Err(_) => {
                    self.close();
                    TunnelAction::Close
                },
            }
        } else if self.buffer.len() >= REQUEST_LIMIT {
            self.close();
            TunnelAction::Close
        } else {
            TunnelAction::ReadClient
        }
    }

    /// Takes in the HTTP upstream's reply.
    fn take_reply(&mut self, data: Vec<u8>) -> (action: TunnelAction)
        ensures
            (final(self)@, action@) == receive_reply(old(self)@, data@),
    {
        if data.len() == 0 {
            self.close();
            return TunnelAction::Close;
        }
        let text = lossy_text(data.as_slice());
        if tunnel_granted(text.as_str()) {
            self.move_to(Phase::Confirming);
            TunnelAction::Confirm(String::from_str(established_reply()))
        } else {
            self.close();
            TunnelAction::Refuse(data)
        }
    }

    /// Advances the tunnel by one event and says what is to be done.
    pub fn step(&mut self, event: TunnelEvent) -> (action: TunnelAction)
        ensures
            (final(self)@, action@) == step_spec(old(self)@, event@),
    {
        match self.phase {
            Phase::Closed => {
                self.close();
                TunnelAction::Nothing
            },
            Phase::AwaitRequest => match event {
                TunnelEvent::ClientData(data) => self.take_request(data),
                _ => {
                    self.close();
                    TunnelAction::Close
                },
            },
            Phase::NegotiatingHttp => match event {
                TunnelEvent::UpstreamData(data) => self.take_reply(data),
                _ => {
                    self.close();
                    TunnelAction::Close
                },
            },
            Phase::NegotiatingSocks5 => match event {
                TunnelEvent::UpstreamReady => {
                    self.move_to(Phase::Confirming);
                    TunnelAction::Confirm(String::from_str(established_reply()))
                },
                _ => {
                    self.close();
                    TunnelAction::Close
                },
            },
            Phase::Confirming => match event {
                TunnelEvent::Sent => {
                    self.move_to(Phase::Relaying);
                    TunnelAction::Relay
                },
                _ => {
                    self.close();
                    TunnelAction::Close
                },
            },
            Phase::Relaying => {
                self.close();
                TunnelAction::Close
            },
        }
    }
}

/// The actions that a tunnel answers a run of events with, and the state
/// that it ends in.
pub open spec fn run(tunnel: TunnelView, events: Seq<EventView>) -> (TunnelView, Seq<ActionView>)
    decreases events.len(),
{
    if events.len() == 0 {
        (tunnel, Seq::empty())
    } else {
        let (before, actions) = run(tunnel, events.drop_last());
        let (after, action) = step_spec(before, events.last());
        (after, actions.push(action))
    }
}

/// A run answers every event with one action.
pub proof fn run_answers_each_event(tunnel: TunnelView, events: Seq<EventView>)
    ensures
        run(tunnel, events).1.len() == events.len(),
    decreases events.len(),
{
    if events.len() > 0 {
        run_answers_each_event(tunnel, events.drop_last());
    }
}

/// The first `n` answers of a run are the answers to its first `n` events.
pub proof fn run_prefix(tunnel: TunnelView, events: Seq<EventView>, n: int)
    requires
        0 <= n <= events.len(),
    ensures
        run(tunnel, events.take(n)).1 == run(tunnel, events).1.take(n),
    decreases events.len(),
{
    run_answers_each_event(tunnel, events);
    if n == events.len() {
        assert(events.take(n) =~= events);
        assert(run(tunnel, events).1.take(n) =~= run(tunnel, events).1);
    } else {
        run_prefix(tunnel, events.drop_last(), n);
        run_answers_each_event(tunnel, events.drop_last());
        assert(events.drop_last().take(n) =~= events.take(n));
        assert(run(tunnel, events).1.take(n) =~= run(tunnel, events.drop_last()).1.take(n));
    }
}

/// A refusal reaches the browser as it came: when an HTTP upstream answers
/// with anything but a grant, the tunnel hands the browser exactly the
/// bytes of that answer and closes. No relay starts.
pub proof fn refusal_is_relayed_verbatim(tunnel: TunnelView, reply: Seq<u8>)
    requires
        tunnel.phase == Phase::NegotiatingHttp,
        reply.len() > 0,
        !grants_tunnel(text_of(reply)),
    ensures
        step_spec(tunnel, EventView::UpstreamData(reply)).1 == ActionView::Refuse(reply),
        step_spec(tunnel, EventView::UpstreamData(reply)).0.phase == Phase::Closed,
{
}

/// A grant is confirmed whatever the protocol version: when an HTTP
/// upstream answers with status 200, the tunnel hands the browser the
/// confirmation and waits for it to be written.
pub proof fn grant_is_confirmed(tunnel: TunnelView, reply: Seq<u8>)
    requires
        tunnel.phase == Phase::NegotiatingHttp,
        reply.len() > 0,
        reply_status(text_of(reply)) == "200"@,
    ensures
        step_spec(tunnel, EventView::UpstreamData(reply)).1 == ActionView::Confirm(
            established_text(),
        ),
        step_spec(tunnel, EventView::UpstreamData(reply)).0.phase == Phase::Confirming,
{
}

/// What a reply of ASCII bytes does is read off the bytes themselves: with
/// status 200 it is confirmed, with any other status it goes to the browser
/// as it came.
pub proof fn ascii_reply_is_read_exactly(tunnel: TunnelView, reply: Seq<u8>)
    requires
        tunnel.phase == Phase::NegotiatingHttp,
        reply.len() > 0,
        is_ascii_bytes(reply),
    ensures
        step_spec(tunnel, EventView::UpstreamData(reply)) == if reply_status(ascii_chars(reply))
            == "200"@ {
            (moved_to(tunnel, Phase::Confirming), ActionView::Confirm(established_text()))
        } else {
            (closed(tunnel), ActionView::Refuse(reply))
        },
{
    ascii_bytes_read_as_themselves(reply);
}

/// What a request of ASCII bytes does is read off the bytes themselves,
/// once its first line is complete: a CONNECT request starts the handshake
/// with the upstream proxy, and any other request closes the tunnel.
pub proof fn ascii_request_is_read_exactly(tunnel: TunnelView, data: Seq<u8>)
    requires
        tunnel.phase == Phase::AwaitRequest,
        data.len() > 0,
        is_ascii_bytes(tunnel.buffer + data),
        (tunnel.buffer + data).contains(0x0au8),
    ensures
        step_spec(tunnel, EventView::ClientData(data)) == match parsed_request(
            ascii_chars(tunnel.buffer + data),
        ) {
            Ok(target) => negotiate(tunnel, target),
            Err(_) => (closed(tunnel), ActionView::Close),
        },
{
    ascii_bytes_read_as_themselves(tunnel.buffer + data);
}

/// A failed SOCKS5 handshake sends the browser nothing: the tunnel closes.
pub proof fn socks_failure_sends_nothing(tunnel: TunnelView, event: EventView)
    requires
        tunnel.phase == Phase::NegotiatingSocks5,
        event != EventView::UpstreamReady,
    ensures
        step_spec(tunnel, event) == (closed(tunnel), ActionView::Close),
{
}

/// A closed tunnel stays closed and asks for nothing more.
pub proof fn closed_is_final(tunnel: TunnelView, event: EventView)
    requires
        tunnel.phase == Phase::Closed,
    ensures
        step_spec(tunnel, event).0.phase == Phase::Closed,
        step_spec(tunnel, event).1 == ActionView::Nothing,
{
}

/// A relay ends with its first half: whatever is reported of a relaying
/// tunnel, the answer is to close both sides, and the tunnel is closed.
pub proof fn relay_ends_with_either_half(tunnel: TunnelView, event: EventView)
    requires
        tunnel.phase == Phase::Relaying,
    ensures
        step_spec(tunnel, event).1 == ActionView::Close,
        step_spec(tunnel, event).0.phase == Phase::Closed,
{
}

/// Once a run has closed the tunnel, every later answer is `Nothing`.
pub proof fn nothing_follows_close(tunnel: TunnelView, events: Seq<EventView>, i: int, j: int)
    requires
        0 <= i < j < events.len(),
        run(tunnel, events.take(i + 1)).0.phase == Phase::Closed,
    ensures
        run(tunnel, events).1[j] == ActionView::Nothing,
        run(tunnel, events).0.phase == Phase::Closed,
    decreases events.len(),
{
    run_answers_each_event(tunnel, events.drop_last());
    if i + 1 == events.len() - 1 {
        assert(events.drop_last() =~= events.take(i + 1));
    } else {
        assert(events.drop_last().take(i + 1) =~= events.take(i + 1));
        if j < events.len() - 1 {
            nothing_follows_close(tunnel, events.drop_last(), i, j);
        } else {
            nothing_follows_close(tunnel, events.drop_last(), i, i + 1);
        }
    }
}

/// What a tunnel's phase tells of the last answer of the run that led to it.
pub open spec fn phase_matches_answers(tunnel: TunnelView, actions: Seq<ActionView>) -> bool {
    &&& tunnel.phase == Phase::Confirming ==> actions.len() > 0 && actions.last()
        == ActionView::Confirm(established_text())
    &&& tunnel.phase == Phase::Relaying ==> actions.len() > 0 && actions.last()
        == ActionView::Relay
    &&& forall|k: int|
        0 <= k < actions.len() && #[trigger] actions[k] == ActionView::Relay ==> k > 0
            && actions[k - 1] == ActionView::Confirm(established_text())
    &&& forall|k: int|
        0 <= k < actions.len() - 1 && #[trigger] actions[k] == ActionView::Relay ==> tunnel.phase
            == Phase::Closed
}

/// The run of a fresh tunnel keeps `phase_matches_answers`.
pub proof fn run_keeps_order(upstream: UpstreamView, events: Seq<EventView>)
    ensures
        phase_matches_answers(
            run(Tunnel::fresh(upstream), events).0,
            run(Tunnel::fresh(upstream), events).1,
        ),
    decreases events.len(),
{
    if events.len() > 0 {
        run_keeps_order(upstream, events.drop_last());
        run_answers_each_event(Tunnel::fresh(upstream), events.drop_last());
    }
}

/// The browser is told before a byte is relayed: in the run of a fresh
/// tunnel, the answer just before `Relay` is `Confirm` with the text
/// `HTTP/1.1 200 Connection established` and an empty line.
pub proof fn confirmation_precedes_relay(upstream: UpstreamView, events: Seq<EventView>, j: int)
    requires
        0 <= j < events.len(),
        run(Tunnel::fresh(upstream), events).1[j] == ActionView::Relay,
    ensures
        j > 0,
        run(Tunnel::fresh(upstream), events).1[j - 1] == ActionView::Confirm(established_text()),
{
    run_keeps_order(upstream, events);
    run_answers_each_event(Tunnel::fresh(upstream), events);
}

/// A tunnel relays at most once: in the run of a fresh tunnel no two answers
/// are `Relay`.
pub proof fn relay_starts_once(upstream: UpstreamView, events: Seq<EventView>, i: int, j: int)
    requires
        0 <= i < j < events.len(),
        run(Tunnel::fresh(upstream), events).1[i] == ActionView::Relay,
    ensures
        run(Tunnel::fresh(upstream), events).1[j] != ActionView::Relay,
{
    let start = Tunnel::fresh(upstream);
    run_answers_each_event(start, events);
    run_prefix(start, events, j + 1);
    run_keeps_order(upstream, events.take(j + 1));
    run_answers_each_event(start, events.take(j + 1));
    let part = run(start, events.take(j + 1));
    assert(part.1[i] == run(start, events).1[i]);
    assert(part.1[j] == run(start, events).1[j]);
    assert(part.0.phase == Phase::Closed);
}

} // verus!
