//! The TCP handshake: parsing the operator's line-terminated request
//! tokens and deciding each handshake against the server state.
//!
//! The acceptor's socket loop reads the raw request and writes the
//! reply; every decision in between is here.

use crate::messages::{SocketAddress, TcpMessage, UDPMessage};
use crate::session::SessionState;
use vstd::prelude::*;
use vstd::slice::slice_to_vec;
use vstd::string::StringSliceAdditionalSpecFns;

verus! {

/// The request tokens the acceptor understands.
#[derive(Clone, Copy, Debug, PartialEq, Eq, Structural)]
pub enum RequestTypes {
    Connect,
    Disconnect,
    /// The token the socket edge substitutes when a request could not
    /// be read; never replied to.
    Unknown,
}

/// `key` begins `req`.
pub open spec fn spec_is_prefix(key: Seq<u8>, req: Seq<u8>) -> bool {
    key.len() <= req.len() && req.take(key.len() as int) == key
}

/// The value of the first registered token that begins the request.
pub open spec fn spec_first_match<T>(entries: Seq<(Seq<u8>, T)>, req: Seq<u8>) -> Option<T>
    decreases entries.len(),
{
    if entries.len() == 0 {
        None
    } else if spec_is_prefix(entries[0].0, req) {
        Some(entries[0].1)
    } else {
        spec_first_match(entries.drop_first(), req)
    }
}

fn is_prefix_of(key: &[u8], req: &[u8]) -> (r: bool)
    ensures
        r == spec_is_prefix(key@, req@),
{
    if key.len() > req.len() {
        return false;
    }
    let mut j: usize = 0;
    while j < key.len()
        invariant
            j <= key@.len() <= req@.len(),
            forall|t: int| 0 <= t < j ==> key@[t] == req@[t],
        decreases key@.len() - j,
    {
        if key[j] != req[j] {
            return false;
        }
        j = j + 1;
    }
    assert(req@.take(key@.len() as int) =~= key@);
    true
}

/// Outcome of matching a raw request against the registered tokens.
#[derive(Debug, PartialEq, Eq, Structural)]
pub enum RequestParserResult<T> {
    Success(T),
    InvalidRequest,
}

/// The set of line-terminated request tokens the acceptor answers,
/// each mapped to its request type.  Tokens are matched in
/// registration order against the head of the raw request.
pub struct RequestParser<T> {
    entries: Vec<(Vec<u8>, T)>,
}

impl<T: Copy> RequestParser<T> {
    /// The registered tokens (as byte strings) and their values.
    pub closed spec fn view(self) -> Seq<(Seq<u8>, T)> {
        self.entries@.map_values(|e: (Vec<u8>, T)| (e.0@, e.1))
    }

    pub fn new() -> (r: RequestParser<T>)
        ensures
            r@ == Seq::<(Seq<u8>, T)>::empty(),
    {
        let r = RequestParser { entries: Vec::new() };
        assert(r@ =~= Seq::<(Seq<u8>, T)>::empty());
        r
    }

    /// Register one token.
    pub fn insert(&mut self, key: &str, value: T)
        ensures
            final(self)@ == old(self)@.push((key.spec_bytes(), value)),
    {
        let bytes = slice_to_vec(key.as_bytes());
        self.entries.push((bytes, value));
        assert(final(self)@ =~= old(self)@.push((key.spec_bytes(), value)));
    }

    /// Match the head of a raw request against the registered tokens
    /// and hand back the value of the first token that begins it.
    pub fn strip_line_and_get_value(&self, request: &[u8]) -> (r: RequestParserResult<T>)
        ensures
            r == match spec_first_match(self@, request@) {
                Some(v) => RequestParserResult::Success(v),
                None => RequestParserResult::<T>::InvalidRequest,
            },
    {
        let mut i: usize = 0;
        assert(self@.skip(0) =~= self@);
        while i < self.entries.len()
            invariant
                i <= self.entries@.len(),
                self@.len() == self.entries@.len(),
                spec_first_match(self@, request@) == spec_first_match(
                    self@.skip(i as int),
                    request@,
                ),
            decreases self.entries@.len() - i,
        {
            let e = &self.entries[i];
            if is_prefix_of(e.0.as_slice(), request) {
                assert(self@.skip(i as int)[0] == (self.entries@[i as int].0@,
                self.entries@[i as int].1));
                return RequestParserResult::Success(e.1);
            }
            assert(self@.skip(i as int).drop_first() =~= self@.skip(i + 1));
            i = i + 1;
        }
        assert(self@.skip(i as int).len() == 0);
        RequestParserResult::InvalidRequest
    }
}

/// Register the supported handshake tokens: `CONNECT` and
/// `DISCONNECT`, each line-terminated, and the marker token the socket
/// edge writes into a request it failed to read.
pub fn initialize_request_parser(request_parser: &mut RequestParser<RequestTypes>)
    ensures
        final(request_parser)@ == old(request_parser)@.push(
            (("CONNECT\r\n").spec_bytes(), RequestTypes::Connect),
        ).push((("DISCONNECT\r\n").spec_bytes(), RequestTypes::Disconnect)).push(
            (("@@Failed@@\r\n").spec_bytes(), RequestTypes::Unknown),
        ),
{
    request_parser.insert("CONNECT\r\n", RequestTypes::Connect);
    request_parser.insert("DISCONNECT\r\n", RequestTypes::Disconnect);
    request_parser.insert("@@Failed@@\r\n", RequestTypes::Unknown);
}

/// The acceptor's replies.
#[derive(Clone, Copy, Debug, PartialEq, Eq, Structural)]
pub enum TcpReply {
    /// The handshake succeeded; the operator may open the UDP dialog
    /// on the named port.
    PortOpen,
    /// A second operator tried to connect.
    AlreadyConnected,
    /// A connect arrived while the session recovers.
    RecoveryInProgress,
    /// The disconnect was taken (idempotently).
    Disconnected,
}

impl TcpReply {
    /// The ASCII reply written back on the stream.
    pub fn text(&self) -> (r: &'static str)
        ensures
            match *self {
                TcpReply::PortOpen => r@ == ("OK 8888")@,
                TcpReply::AlreadyConnected => r@ == ("ERROR POD Already Connected to Controller")@,
                TcpReply::RecoveryInProgress => r@ == (
                "ERROR Unable to Connect to Pod while recovering. Please Wait for recovery to finish"
                )@,
                TcpReply::Disconnected => r@ == ("DISCONNECTED")@,
            },
    {
        match self {
            TcpReply::PortOpen => "OK 8888",
            TcpReply::AlreadyConnected => "ERROR POD Already Connected to Controller",
            TcpReply::RecoveryInProgress => "ERROR Unable to Connect to Pod while recovering. Please Wait for recovery to finish",
            TcpReply::Disconnected => "DISCONNECTED",
        }
    }
}

/// Everything one handshake decides: the acceptor's next state, the
/// reply owed on the stream (none for a malformed request), and the
/// message owed to the operator session.
#[derive(Clone, Copy, Debug, PartialEq, Eq, Structural)]
pub struct TcpDecision {
    pub new_state: SessionState,
    pub reply: Option<TcpReply>,
    pub to_udp: Option<UDPMessage>,
}

/// The handshake table.  A connect while disconnected binds the peer's
/// address on the fixed UDP port 8888; a disconnect is answered
/// wherever it arrives but acts only on a connected session; a
/// malformed request is logged by the edge and gets no reply.  (A
/// connect in `Startup` never reaches this table: the acceptor must
/// not accept before startup completes.)
pub open spec fn spec_handle_tcp_request(
    state: SessionState,
    request: RequestTypes,
    peer: SocketAddress,
) -> TcpDecision {
    match request {
        RequestTypes::Connect => match state {
            SessionState::Disconnected => TcpDecision {
                new_state: SessionState::Connected,
                reply: Some(TcpReply::PortOpen),
                to_udp: Some(
                    UDPMessage::ConnectToHost(SocketAddress { ip: peer.ip, port: 8888 }),
                ),
            },
            SessionState::Connected => TcpDecision {
                new_state: state,
                reply: Some(TcpReply::AlreadyConnected),
                to_udp: None,
            },
            _ => TcpDecision {
                new_state: state,
                reply: Some(TcpReply::RecoveryInProgress),
                to_udp: None,
            },
        },
        RequestTypes::Disconnect => match state {
            SessionState::Connected => TcpDecision {
                new_state: SessionState::Recovery,
                reply: Some(TcpReply::Disconnected),
                to_udp: Some(UDPMessage::DisconnectFromHost),
            },
            _ => TcpDecision {
                new_state: state,
                reply: Some(TcpReply::Disconnected),
                to_udp: None,
            },
        },
        RequestTypes::Unknown => TcpDecision { new_state: state, reply: None, to_udp: None },
    }
}

/// Decide one handshake request.  A connect must never be handled in
/// `Startup` (accepting one there is a fatal fault); the caller keeps
/// the acceptor closed until startup completes.
pub fn handle_tcp_request(state: SessionState, request: RequestTypes, peer: SocketAddress) -> (d:
    TcpDecision)
    requires
        !(state is Startup && request is Connect),
    ensures
        d == spec_handle_tcp_request(state, request, peer),
{
    match request {
        RequestTypes::Connect => match state {
            SessionState::Disconnected => TcpDecision {
                new_state: SessionState::Connected,
                reply: Some(TcpReply::PortOpen),
                to_udp: Some(
                    UDPMessage::ConnectToHost(SocketAddress { ip: peer.ip, port: 8888 }),
                ),
            },
            SessionState::Connected => TcpDecision {
                new_state: state,
                reply: Some(TcpReply::AlreadyConnected),
                to_udp: None,
            },
            _ => TcpDecision {
                new_state: state,
                reply: Some(TcpReply::RecoveryInProgress),
                to_udp: None,
            },
        },
        RequestTypes::Disconnect => match state {
            SessionState::Connected => TcpDecision {
                new_state: SessionState::Recovery,
                reply: Some(TcpReply::Disconnected),
                to_udp: Some(UDPMessage::DisconnectFromHost),
            },
            _ => TcpDecision {
                new_state: state,
                reply: Some(TcpReply::Disconnected),
                to_udp: None,
            },
        },
        RequestTypes::Unknown => TcpDecision { new_state: state, reply: None, to_udp: None },
    }
}

/// Apply one message from the acceptor's inbox, drained before each
/// accept.
pub open spec fn spec_apply_tcp_message(state: SessionState, msg: TcpMessage) -> SessionState {
    match msg {
        TcpMessage::EnteringRecovery => SessionState::Recovery,
        TcpMessage::RecoveryComplete => SessionState::Disconnected,
    }
}

pub fn apply_tcp_message(state: SessionState, msg: TcpMessage) -> (r: SessionState)
    ensures
        r == spec_apply_tcp_message(state, msg),
{
    match msg {
        TcpMessage::EnteringRecovery => SessionState::Recovery,
        TcpMessage::RecoveryComplete => SessionState::Disconnected,
    }
}

} // verus!
