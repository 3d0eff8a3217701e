//! The address of the status listener and the protocol that it speaks.

use crate::error::Error;
use crate::error::ErrorView;
use crate::text::all_digits;
use crate::text::decimal_value;
use crate::text::parse_u16;
use crate::text::parse_u64;
use crate::text::parse_unsigned;
use crate::text::split;
use crate::text::split_str;
use crate::text::str_eq;
use crate::text::views;
use crate::virtio::built_as;
use vstd::prelude::*;

verus! {

/// The scheme of a listener address.
#[derive(Clone, Copy, Debug, PartialEq, Eq)]
pub enum UriScheme {
    Tcp,
    Unix,
    /// Written `none`: no listener.
    Disabled,
}

impl Default for UriScheme {
    fn default() -> (r: Self)
        ensures
            r == UriScheme::Disabled,
    {
        UriScheme::Disabled
    }
}

/// The scheme that a text names.
pub open spec fn scheme_spec(s: Seq<char>) -> Result<UriScheme, ErrorView> {
    if s == "tcp"@ {
        Ok(UriScheme::Tcp)
    } else if s == "unix"@ {
        Ok(UriScheme::Unix)
    } else if s == "none"@ {
        Ok(UriScheme::Disabled)
    } else {
        Err(ErrorView::InvalidScheme)
    }
}

impl UriScheme {
    /// Reads `tcp`, `unix` or `none`.
    pub fn from_str(s: &str) -> (r: Result<Self, Error>)
        ensures
            match scheme_spec(s@) {
                Ok(v) => r == Ok::<Self, Error>(v),
                Err(e) => r matches Err(x) && x@ == e,
            },
    {
        if str_eq(s, "tcp") {
            Ok(UriScheme::Tcp)
        } else if str_eq(s, "unix") {
            Ok(UriScheme::Unix)
        } else if str_eq(s, "none") {
            Ok(UriScheme::Disabled)
        } else {
            Err(Error::InvalidScheme)
        }
    }
}

/// Where the status listener listens: a TCP address of four octets and a port, a Unix
/// socket path, or nowhere.
#[derive(Clone, Debug, PartialEq)]
pub enum RestfulUri {
    Tcp([u8; 4], u16),
    Unix(String),
    /// Written `none://`: no listener.
    Disabled,
}

/// The mathematical value of a [`RestfulUri`].
pub enum RestfulUriView {
    Tcp(Seq<u8>, u16),
    Unix(Seq<char>),
    Disabled,
}

impl View for RestfulUri {
    type V = RestfulUriView;

    open spec fn view(&self) -> RestfulUriView {
        match *self {
            RestfulUri::Tcp(a, p) => RestfulUriView::Tcp(a@, p),
            RestfulUri::Unix(p) => RestfulUriView::Unix(p@),
            RestfulUri::Disabled => RestfulUriView::Disabled,
        }
    }
}

impl Default for RestfulUri {
    fn default() -> (r: Self)
        ensures
            r@ == RestfulUriView::Disabled,
    {
        RestfulUri::Disabled
    }
}

/// The octet that a text stands for: one to three decimal digits, no leading zero
/// before another digit, at most 255.
pub open spec fn octet_spec(s: Seq<char>) -> Option<u8> {
    if 1 <= s.len() <= 3 && all_digits(s) && !(s.len() > 1 && s[0] == '0') && decimal_value(s)
        <= 255 {
        Some(decimal_value(s) as u8)
    } else {
        None
    }
}

/// The address that a dotted text stands for: four octets separated by dots.
pub open spec fn ipv4_spec(s: Seq<char>) -> Option<Seq<u8>> {
    let parts = split(s, '.');
    if parts.len() == 4 && octet_spec(parts[0]) is Some && octet_spec(parts[1]) is Some
        && octet_spec(parts[2]) is Some && octet_spec(parts[3]) is Some {
        Some(
            seq![
                octet_spec(parts[0])->0,
                octet_spec(parts[1])->0,
                octet_spec(parts[2])->0,
                octet_spec(parts[3])->0,
            ],
        )
    } else {
        None
    }
}

fn parse_octet(s: &str) -> (r: Option<u8>)
    ensures
        r == octet_spec(s@),
{
    let n = s.unicode_len();
    if n < 1 || n > 3 {
        return None;
    }
    let first = s.get_char(0);
    if first == '+' || (n > 1 && first == '0') {
        proof {
            if first == '+' {
                assert(!crate::text::is_digit(s@[0]));
            }
        }
        return None;
    }
    match parse_u64(s, 255) {
        Some(v) => Some(v as u8),
        None => None,
    }
}

/// Reads a dotted IPv4 address.
pub fn parse_ipv4(s: &str) -> (r: Option<[u8; 4]>)
    ensures
        match ipv4_spec(s@) {
            Some(a) => r matches Some(b) && b@ == a,
            None => r is None,
        },
{
    let parts = split_str(s, '.');
    if parts.len() != 4 {
        return None;
    }
    assert(views(parts@)[0] == parts@[0]@);
    assert(views(parts@)[1] == parts@[1]@);
    assert(views(parts@)[2] == parts@[2]@);
    assert(views(parts@)[3] == parts@[3]@);
    let a = parse_octet(parts[0].as_str());
    let b = parse_octet(parts[1].as_str());
    let c = parse_octet(parts[2].as_str());
    let d = parse_octet(parts[3].as_str());
    match (a, b, c, d) {
        (Some(a), Some(b), Some(c), Some(d)) => {
            let r = [a, b, c, d];
            assert(r@ =~= seq![a, b, c, d]);
            Some(r)
        },
        _ => None,
    }
}

/// The host of a TCP address, with `localhost` standing for the loopback address.
pub open spec fn host_spec(host: Seq<char>) -> Option<Seq<u8>> {
    if host == "localhost"@ {
        Some(seq![127u8, 0u8, 0u8, 1u8])
    } else {
        ipv4_spec(host)
    }
}

/// The TCP address that `host:port` stands for.
pub open spec fn tcp_spec(input: Seq<char>) -> Result<(Seq<u8>, u16), ErrorView> {
    let parts = split(input, ':');
    if parts.len() != 2 {
        Err(ErrorView::MalformedUri)
    } else if host_spec(parts[0]) is None {
        Err(ErrorView::InvalidIpAddress)
    } else if parse_unsigned(parts[1], u16::MAX as nat) is None {
        Err(ErrorView::InvalidUriPort)
    } else {
        Ok((host_spec(parts[0])->0, (parse_unsigned(parts[1], u16::MAX as nat)->0) as u16))
    }
}

/// Reads `host:port`, where the host is `localhost` or a dotted IPv4 address and the
/// port an unsigned 16-bit number.
pub fn parse_tcp_input(input: &str) -> (r: Result<([u8; 4], u16), Error>)
    ensures
        match tcp_spec(input@) {
            Ok(v) => r matches Ok(c) && c.0@ == v.0 && c.1 == v.1,
            Err(e) => r matches Err(x) && x@ == e,
        },
{
    let parts = split_str(input, ':');
    if parts.len() != 2 {
        return Err(Error::MalformedUri);
    }
    assert(views(parts@)[0] == parts@[0]@);
    assert(views(parts@)[1] == parts@[1]@);
    let host = if str_eq(parts[0].as_str(), "localhost") {
        let r: [u8; 4] = [127, 0, 0, 1];
        assert(r@ =~= seq![127u8, 0u8, 0u8, 1u8]);
        Some(r)
    } else {
        parse_ipv4(parts[0].as_str())
    };
    let ip_addr = match host {
        Some(a) => a,
        None => {
            return Err(Error::InvalidIpAddress);
        },
    };
    let port = match parse_u16(parts[1].as_str()) {
        Some(p) => p,
        None => {
            return Err(Error::InvalidUriPort);
        },
    };
    Ok((ip_addr, port))
}

/// Whether `s` begins with `prefix`.
pub open spec fn starts_with(s: Seq<char>, prefix: Seq<char>) -> bool {
    prefix.len() <= s.len() && s.subrange(0, prefix.len() as int) == prefix
}

/// What follows the first `n` characters of `s`.
pub open spec fn value_after(s: Seq<char>, n: int) -> Seq<char> {
    s.subrange(n, s.len() as int)
}

/// The address that a URI stands for. The URI begins with `none://`, `tcp://` or
/// `unix://`; all that follows is the value, taken as it is. For `tcp` the value is
/// `host:port`, for `unix` a path that is not empty, for `none` it is ignored.
pub open spec fn uri_spec(s: Seq<char>) -> Result<RestfulUriView, ErrorView> {
    if starts_with(s, "none://"@) {
        Ok(RestfulUriView::Disabled)
    } else if starts_with(s, "tcp://"@) {
        match tcp_spec(value_after(s, "tcp://"@.len() as int)) {
            Ok(v) => Ok(RestfulUriView::Tcp(v.0, v.1)),
            Err(e) => Err(e),
        }
    } else if starts_with(s, "unix://"@) {
        if value_after(s, "unix://"@.len() as int).len() == 0 {
            Err(ErrorView::EmptyUnixPath)
        } else {
            Ok(RestfulUriView::Unix(value_after(s, "unix://"@.len() as int)))
        }
    } else {
        Err(ErrorView::InvalidSchemeInput)
    }
}

fn has_prefix(s: &str, prefix: &str) -> (r: bool)
    ensures
        r == starts_with(s@, prefix@),
{
    let m = prefix.unicode_len();
    if s.unicode_len() < m {
        return false;
    }
    str_eq(s.substring_char(0, m), prefix)
}

fn value_from<'a>(s: &'a str, n: usize) -> (r: &'a str)
    requires
        n <= s@.len(),
    ensures
        r@ == value_after(s@, n as int),
{
    s.substring_char(n, s.unicode_len())
}

impl RestfulUri {
    /// Reads the address of the status listener.
    pub fn from_str(s: &str) -> (r: Result<Self, Error>)
        ensures
            built_as(r, uri_spec(s@)),
    {
        if has_prefix(s, "none://") {
            Ok(RestfulUri::Disabled)
        } else if has_prefix(s, "tcp://") {
            let value = value_from(s, "tcp://".unicode_len());
            let parsed = parse_tcp_input(value)?;
            Ok(RestfulUri::Tcp(parsed.0, parsed.1))
        } else if has_prefix(s, "unix://") {
            let value = value_from(s, "unix://".unicode_len());
            if value.unicode_len() == 0 {
                return Err(Error::EmptyUnixPath);
            }
            Ok(RestfulUri::Unix(String::from_str(value)))
        } else {
            Err(Error::InvalidSchemeInput)
        }
    }
}

/// Whether a listener is to be started: only for an address other than `Disabled`.
pub fn wants_listener(uri: &Option<RestfulUri>) -> (r: bool)
    ensures
        r == (uri matches Some(u) && u@ != RestfulUriView::Disabled),
{
    match uri {
        Some(RestfulUri::Disabled) => false,
        Some(_) => true,
        None => false,
    }
}

/// What the listener reports of the virtual machine.
#[derive(Clone, Copy, Debug, PartialEq, Eq)]
pub enum VmState {
    Running,
    Stopping,
}

/// What the listener does with one request: the state it reports, and whether it
/// writes the shutdown value to the backend's shutdown handle.
#[derive(Clone, Copy, Debug, PartialEq, Eq)]
pub struct Reply {
    pub state: VmState,
    pub shutdown: bool,
}

/// Whether the four bytes `POST` stand at position `i` of `b`.
pub open spec fn post_at(b: Seq<u8>, i: int) -> bool {
    0 <= i && i + 4 <= b.len() && b[i] == 0x50 && b[i + 1] == 0x4f && b[i + 2] == 0x53 && b[i
        + 3] == 0x54
}

/// Whether the bytes `POST` occur in `b`.
pub open spec fn contains_post(b: Seq<u8>) -> bool {
    exists|i: int| post_at(b, i)
}

/// Decides the reply to one request: a request that holds `POST` anywhere stops the
/// virtual machine, any other is a question for its state.
pub fn handle_incoming_stream(request: &[u8]) -> (r: Reply)
    ensures
        r == reply_spec(request@),
{
    let n = request.len();
    if n < 4 {
        return Reply { state: VmState::Running, shutdown: false };
    }
    let mut i: usize = 0;
    while i <= n - 4
        invariant
            n == request@.len(),
            n >= 4,
            forall|j: int| 0 <= j < i ==> !post_at(request@, j),
        decreases n - i,
    {
        if request[i] == 0x50 && request[i + 1] == 0x4f && request[i + 2] == 0x53 && request[i
            + 3] == 0x54 {
            assert(post_at(request@, i as int));
            return Reply { state: VmState::Stopping, shutdown: true };
        }
        i += 1;
    }
    Reply { state: VmState::Running, shutdown: false }
}

/// The response sent for a state: a complete HTTP/1.1 response with a JSON body.
pub fn response_text(state: VmState) -> (r: &'static str)
    ensures
        r@ == (match state {
            VmState::Running =>
                "HTTP/1.1 200 OK\r\nContent-type: application/json\r\n\r\n{\"state\": \"VirtualMachineStateRunning\"}"@,
            VmState::Stopping =>
                "HTTP/1.1 200 OK\r\nContent-type: application/json\r\n\r\n{\"state\": \"VirtualMachineStateStopping\"}"@,
        }),
{
    match state {
        VmState::Running =>
            "HTTP/1.1 200 OK\r\nContent-type: application/json\r\n\r\n{\"state\": \"VirtualMachineStateRunning\"}",
        VmState::Stopping =>
            "HTTP/1.1 200 OK\r\nContent-type: application/json\r\n\r\n{\"state\": \"VirtualMachineStateStopping\"}",
    }
}

/// The eight bytes written to the shutdown handle: the number one, least significant
/// byte first.
pub fn shutdown_value() -> (r: [u8; 8])
    ensures
        r@ == seq![1u8, 0u8, 0u8, 0u8, 0u8, 0u8, 0u8, 0u8],
{
    let r: [u8; 8] = [1, 0, 0, 0, 0, 0, 0, 0];
    assert(r@ =~= seq![1u8, 0u8, 0u8, 0u8, 0u8, 0u8, 0u8, 0u8]);
    r
}

/// The number of bytes that are read of one request at most.
pub const REQUEST_BUFFER_SIZE: usize = 4096;

/// Where the listener stands.
#[derive(Clone, Copy, Debug, PartialEq, Eq)]
pub enum ListenerState {
    /// Not started, or not wanted.
    Idle,
    /// Binding its socket.
    Binding,
    /// Waiting for a connection and its request.
    AwaitingRequest,
    /// Answering a request.
    Responding,
    /// The socket could not be bound.
    Failed,
}

/// What has happened outside the listener.
#[derive(Clone, Debug, PartialEq, Eq)]
pub enum ListenerEvent {
    /// The listener is started; `listen` says whether an address is configured.
    Start { listen: bool },
    /// The socket is bound.
    Bound,
    /// The socket could not be bound.
    BindFailed,
    /// A connection was accepted and these bytes were read from it.
    Request(Vec<u8>),
    /// A connection was accepted but could not be read.
    ReadFailed,
    /// The answer was written, or writing it failed.
    Responded,
}

/// What the listener asks of its caller next.
#[derive(Clone, Copy, Debug, PartialEq, Eq)]
pub enum ListenerAction {
    /// Nothing: the event does not concern the state.
    Nothing,
    /// Bind the socket, a Unix socket after removing what is left of an earlier one.
    Bind,
    /// Accept a connection and read its request.
    Accept,
    /// Write the response for the state, then the shutdown value where asked for, and
    /// close the connection.
    Respond(Reply),
    /// Give up: the listener cannot run.
    Fail,
}

/// The reply to a request.
pub open spec fn reply_spec(request: Seq<u8>) -> Reply {
    if contains_post(request) {
        Reply { state: VmState::Stopping, shutdown: true }
    } else {
        Reply { state: VmState::Running, shutdown: false }
    }
}

/// The next state and the action for a state and an event. A listener that is started
/// binds its socket where an address is configured. Once bound it waits for a request,
/// answers it, and waits again, for ever; a connection that cannot be read is dropped.
/// An event that does not concern the state changes nothing.
pub open spec fn listener_spec(state: ListenerState, event: ListenerEvent) -> (
    ListenerState,
    ListenerAction,
) {
    match (state, event) {
        (ListenerState::Idle, ListenerEvent::Start { listen }) => if listen {
            (ListenerState::Binding, ListenerAction::Bind)
        } else {
            (ListenerState::Idle, ListenerAction::Nothing)
        },
        (ListenerState::Binding, ListenerEvent::Bound) => (
            ListenerState::AwaitingRequest,
            ListenerAction::Accept,
        ),
        (ListenerState::Binding, ListenerEvent::BindFailed) => (
            ListenerState::Failed,
            ListenerAction::Fail,
        ),
        (ListenerState::AwaitingRequest, ListenerEvent::Request(bytes)) => (
            ListenerState::Responding,
            ListenerAction::Respond(reply_spec(bytes@)),
        ),
        (ListenerState::AwaitingRequest, ListenerEvent::ReadFailed) => (
            ListenerState::AwaitingRequest,
            ListenerAction::Accept,
        ),
        (ListenerState::Responding, ListenerEvent::Responded) => (
            ListenerState::AwaitingRequest,
            ListenerAction::Accept,
        ),
        _ => (state, ListenerAction::Nothing),
    }
}

/// Makes one step of the listener.
pub fn listener_step(state: ListenerState, event: &ListenerEvent) -> (r: (
    ListenerState,
    ListenerAction,
))
    ensures
        r == listener_spec(state, *event),
{
    match (state, event) {
        (ListenerState::Idle, ListenerEvent::Start { listen }) => {
            if *listen {
                (ListenerState::Binding, ListenerAction::Bind)
            } else {
                (ListenerState::Idle, ListenerAction::Nothing)
            }
        },
        (ListenerState::Binding, ListenerEvent::Bound) => (
            ListenerState::AwaitingRequest,
            ListenerAction::Accept,
        ),
        (ListenerState::Binding, ListenerEvent::BindFailed) => (
            ListenerState::Failed,
            ListenerAction::Fail,
        ),
        (ListenerState::AwaitingRequest, ListenerEvent::Request(bytes)) => (
            ListenerState::Responding,
            ListenerAction::Respond(handle_incoming_stream(bytes.as_slice())),
        ),
        (ListenerState::AwaitingRequest, ListenerEvent::ReadFailed) => (
            ListenerState::AwaitingRequest,
            ListenerAction::Accept,
        ),
        (ListenerState::Responding, ListenerEvent::Responded) => (
            ListenerState::AwaitingRequest,
            ListenerAction::Accept,
        ),
        _ => (state, ListenerAction::Nothing),
    }
}

/// Whether the listener serves: it waits for a request or answers one.
pub open spec fn serving(state: ListenerState) -> bool {
    state == ListenerState::AwaitingRequest || state == ListenerState::Responding
}

/// A listener that serves goes on serving whatever happens: no event ends it. Each
/// request is answered once, after which the listener waits for the next.
pub proof fn lemma_listener_never_ends(state: ListenerState, event: ListenerEvent)
    requires
        serving(state),
    ensures
        serving(listener_spec(state, event).0),
        listener_spec(state, event).1 != ListenerAction::Fail,
        state == ListenerState::Responding && event == ListenerEvent::Responded ==> listener_spec(
            state,
            event,
        ) == (ListenerState::AwaitingRequest, ListenerAction::Accept),
{
}

/// Only a request makes the listener answer, and the shutdown value is written for
/// exactly those requests that hold `POST`.
pub proof fn lemma_listener_answers_requests(state: ListenerState, event: ListenerEvent)
    ensures
        listener_spec(state, event).1 matches ListenerAction::Respond(reply) ==> state
            == ListenerState::AwaitingRequest && (event matches ListenerEvent::Request(bytes)
            && reply.shutdown == contains_post(bytes@) && (reply.state == VmState::Stopping)
            == contains_post(bytes@)),
{
}

} // verus!
