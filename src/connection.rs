use vstd::prelude::*;

use crate::handshake::{handshake_read, Handshake};
use crate::login::{fits_frame, Disconnect};
use crate::packets::{frame_encode, Packet, PacketView};
use crate::status::{
    offline_status, StatusStructNew, OFFLINE_DESCRIPTION, STARTING_DESCRIPTION, UNKNOWN_VERSION_NAME,
};
use crate::types::{
    lemma_short_string_encode, lemma_varint_round_trip, var_string_encode, varint_encode,
};

verus! {

/// The negotiated phase of a connection.
#[derive(Debug, Clone, Copy, PartialEq, Eq, Structural)]
pub enum ProtocolState {
    Handshaking,
    Status,
    Login,
    Transfer,
    Configuration,
    Play,
    ShutDown,
}

impl ProtocolState {
    /// The state's name, for logs.
    pub fn to_string(&self) -> (r: String)
        ensures
            r@ == state_name(*self)@,
    {
        match self {
            ProtocolState::Handshaking => "Handshake",
            ProtocolState::Status => "Status",
            ProtocolState::Login => "Login",
            ProtocolState::Configuration => "Configuration ",
            ProtocolState::Play => "Play",
            ProtocolState::ShutDown => "Shutdown",
            ProtocolState::Transfer => "Transfer",
        }.to_owned()
    }
}

pub open spec fn state_name(s: ProtocolState) -> &'static str {
    match s {
        ProtocolState::Handshaking => "Handshake",
        ProtocolState::Status => "Status",
        ProtocolState::Login => "Login",
        ProtocolState::Configuration => "Configuration ",
        ProtocolState::Play => "Play",
        ProtocolState::ShutDown => "Shutdown",
        ProtocolState::Transfer => "Transfer",
    }
}

/// The messages of the Handshaking state.
pub enum HandshakingPackets {
    Handshake,
}

/// The serverbound messages of the Status state.
pub enum StatusPackets {
    StatusRequest,
    PingRequest,
}

/// Why a handshake ends the connection.
#[derive(Debug, Clone, Copy, PartialEq, Eq, Structural)]
pub enum Rejection {
    /// The requested state exists but this proxy does not support it.
    Unsupported(ProtocolState),
    /// The requested next state is not one the protocol defines.
    InvalidNextState(i32),
}

/// The state that a handshake's `next_state` field asks for.
pub open spec fn requested_state(next_state: i32) -> Result<ProtocolState, Rejection> {
    if next_state == 1 {
        Ok(ProtocolState::Status)
    } else if next_state == 2 {
        Ok(ProtocolState::Login)
    } else if next_state == 3 {
        Err(Rejection::Unsupported(ProtocolState::Transfer))
    } else {
        Err(Rejection::InvalidNextState(next_state))
    }
}

/// The state of one client connection, shared by the two relay directions.
#[derive(Debug, Clone, Copy, PartialEq, Eq, Structural)]
pub struct ClientConnectionState {
    pub state: ProtocolState,
    pub protocol_version: i32,
}

impl ClientConnectionState {
    /// The connection state that `hand` asks for: Status for 1, Login for 2;
    /// Transfer (3) is refused as unsupported, any other value as invalid.
    pub fn create(hand: &Handshake) -> (r: Result<ClientConnectionState, Rejection>)
        ensures
            match (r, requested_state(hand@.next_state)) {
                (Ok(c), Ok(s)) => c.state == s && c.protocol_version == hand@.protocol_version,
                (Err(e), Err(se)) => e == se,
                _ => false,
            },
    {
        let state = match hand.get_next_state() {
            1 => ProtocolState::Status,
            2 => ProtocolState::Login,
            3 => return Err(Rejection::Unsupported(ProtocolState::Transfer)),
            n => return Err(Rejection::InvalidNextState(n)),
        };
        Ok(ClientConnectionState { state, protocol_version: hand.get_protocol_version() })
    }
}

/// Reason sent to a client that tries to log in while the backend is starting.
pub const STARTING_REASON: &'static str = "Starting...§d<3§r";

/// Reason sent to a client whose login attempt starts the backend.
pub const SPAWNING_REASON: &'static str = "Okayyy_starting_it_now...§d<3§r";

/// `frame` is a handshake that asks for a state this proxy serves; the
/// connection it opens.
pub open spec fn accepted_handshake(frame: PacketView) -> Option<ClientConnectionState> {
    if frame.id != 0 {
        None
    } else {
        match handshake_read(frame.payload) {
            Some((version, _, _, next)) => match requested_state(next) {
                Ok(state) => Some(ClientConnectionState { state, protocol_version: version }),
                Err(_) => None,
            },
            None => None,
        }
    }
}

/// A well-formed handshake with next state 1 opens a Status connection and one
/// with 2 a Login connection, both with the client's protocol version; any
/// other next state, 3 (Transfer) included, opens none.
pub proof fn lemma_handshake_outcome(frame: PacketView)
    requires
        frame.id == 0,
        handshake_read(frame.payload) is Some,
    ensures
        ({
            let (version, _, _, next) = handshake_read(frame.payload).unwrap();
            &&& next == 1 ==> accepted_handshake(frame) == Some(
                ClientConnectionState { state: ProtocolState::Status, protocol_version: version },
            )
            &&& next == 2 ==> accepted_handshake(frame) == Some(
                ClientConnectionState { state: ProtocolState::Login, protocol_version: version },
            )
            &&& next != 1 && next != 2 ==> accepted_handshake(frame) is None
        }),
{
}

/// `d` is the stand-in status document for a client of `protocol_version`.
pub open spec fn is_offline_status(d: StatusStructNew, protocol_version: i32, starting: bool) -> bool {
    &&& d.version.name@ == UNKNOWN_VERSION_NAME@
    &&& d.version.protocol == protocol_version
    &&& d.enforces_secure_chat == Some(false)
    &&& d.players.max == 1
    &&& d.players.online == (if starting { 1i32 } else { 0i32 })
    &&& d.description.text@ == (if starting { STARTING_DESCRIPTION@ } else { OFFLINE_DESCRIPTION@ })
    &&& d.extra@.len() == 0
}

/// The wire form of the disconnect frame sent to a client whose login finds
/// the backend down.
pub open spec fn refusal_frame(starting: bool) -> Seq<u8> {
    frame_encode(0, var_string_encode(if starting { STARTING_REASON@ } else { SPAWNING_REASON@ }))
}

/// Where a client connection stands.
#[derive(Debug, Clone, Copy, PartialEq, Eq, Structural)]
pub enum SessionPhase {
    /// Waiting for the handshake.
    Handshaking,
    /// Handshake accepted; the backend is being reached.
    Connecting,
    /// Backend down; waiting for the client's status request.
    OfflineStatus,
    /// Stand-in status sent; waiting for the client's ping.
    OfflinePing,
    /// Backend down; waiting for the client's login start.
    OfflineLogin,
    /// Both ends connected; the relay runs the connection.
    Relaying,
    /// Nothing more to do.
    Closed,
}

/// What happened since the last step.
#[derive(Debug)]
pub enum SessionEvent {
    /// A whole frame came from the client.
    ClientFrame(Packet),
    /// The client closed, sent the end-of-data marker or sent bytes that are
    /// no frame.
    ClientGone,
    /// The backend accepted a connection.
    BackendReachable,
    /// The backend refused the connection; whether it is starting already.
    BackendUnreachable { starting: bool },
}

/// What the caller is to do next.
#[derive(Debug)]
pub enum SessionAction {
    /// Read the next frame from the client.
    ReadFrame,
    /// Try to connect to the backend.
    ConnectBackend,
    /// Send this status document to the client as a status response, then
    /// read the next frame.
    SendStatus(StatusStructNew),
    /// Send these bytes to the client, then close.
    ReplyAndClose(Vec<u8>),
    /// Send the handshake to the backend and relay the connection.
    StartRelay { handshake: Vec<u8>, connection: ClientConnectionState },
    /// Send these bytes (a disconnect) to the client, start the backend and
    /// close.
    RefuseAndSpawn(Vec<u8>),
    /// Close the connection without a word.
    Close,
}

/// The decisions for one client connection, from its handshake until it is
/// relayed or closed.
#[derive(Debug)]
pub struct Session {
    pub phase: SessionPhase,
    /// The connection's state once the handshake is accepted.
    pub connection: ClientConnectionState,
    /// The handshake's wire form once it is accepted.
    pub handshake: Vec<u8>,
    /// Whether the backend was starting when it could not be reached.
    pub starting: bool,
}

impl Session {
    pub fn new() -> (r: Session)
        ensures
            r.phase == SessionPhase::Handshaking,
    {
        Session {
            phase: SessionPhase::Handshaking,
            connection: ClientConnectionState { state: ProtocolState::Handshaking, protocol_version: 0 },
            handshake: Vec::new(),
            starting: false,
        }
    }

    /// Takes one event and says what to do next.
    pub fn step(&mut self, event: SessionEvent) -> (a: SessionAction)
        ensures
            old(self).phase == SessionPhase::Handshaking ==> match event {
                SessionEvent::ClientFrame(p) => match accepted_handshake(p@) {
                    Some(c) => {
                        &&& final(self).phase == SessionPhase::Connecting
                        &&& final(self).connection == c
                        &&& final(self).handshake@ == p@.all
                        &&& a is ConnectBackend
                    },
                    None => final(self).phase == SessionPhase::Closed && a is Close,
                },
                _ => final(self).phase == SessionPhase::Closed && a is Close,
            },
            old(self).phase == SessionPhase::Connecting ==> match event {
                SessionEvent::BackendReachable => {
                    &&& final(self).phase == SessionPhase::Relaying
                    &&& match a {
                        SessionAction::StartRelay { handshake, connection } => {
                            &&& handshake@ == old(self).handshake@
                            &&& connection == old(self).connection
                        },
                        _ => false,
                    }
                },
                SessionEvent::BackendUnreachable { starting } => {
                    &&& final(self).starting == starting
                    &&& final(self).connection == old(self).connection
                    &&& if old(self).connection.state == ProtocolState::Status {
                        final(self).phase == SessionPhase::OfflineStatus && a is ReadFrame
                    } else if old(self).connection.state == ProtocolState::Login {
                        final(self).phase == SessionPhase::OfflineLogin && a is ReadFrame
                    } else {
                        final(self).phase == SessionPhase::Closed && a is Close
                    }
                },
                _ => final(self).phase == SessionPhase::Closed && a is Close,
            },
            old(self).phase == SessionPhase::OfflineStatus ==> match event {
                SessionEvent::ClientFrame(p) => if p@.id == 0 {
                    &&& final(self).phase == SessionPhase::OfflinePing
                    &&& match a {
                        SessionAction::SendStatus(d) => is_offline_status(
                            d,
                            old(self).connection.protocol_version,
                            old(self).starting,
                        ),
                        _ => false,
                    }
                } else {
                    final(self).phase == SessionPhase::Closed && a is Close
                },
                _ => final(self).phase == SessionPhase::Closed && a is Close,
            },
            old(self).phase == SessionPhase::OfflinePing ==> final(self).phase
                == SessionPhase::Closed && match event {
                SessionEvent::ClientFrame(p) => if p@.id == 1 {
                    match a {
                        SessionAction::ReplyAndClose(bytes) => bytes@ == p@.all,
                        _ => false,
                    }
                } else {
                    a is Close
                },
                _ => a is Close,
            },
            old(self).phase == SessionPhase::OfflineLogin ==> final(self).phase
                == SessionPhase::Closed && match event {
                SessionEvent::ClientFrame(_) => match a {
                    SessionAction::RefuseAndSpawn(bytes) => bytes@ == refusal_frame(
                        old(self).starting,
                    ),
                    _ => false,
                },
                _ => a is Close,
            },
            old(self).phase == SessionPhase::Relaying || old(self).phase == SessionPhase::Closed
                ==> final(self).phase == SessionPhase::Closed && a is Close,
    {
        match self.phase {
            SessionPhase::Handshaking => {
                self.phase = SessionPhase::Closed;
                let p = match event {
                    SessionEvent::ClientFrame(p) => p,
                    _ => return SessionAction::Close,
                };
                if p.get_id() != 0 {
                    return SessionAction::Close;
                }
                let ghost frame = p@;
                let hand = match Handshake::parse(p) {
                    Some(h) => h,
                    None => return SessionAction::Close,
                };
                let connection = match ClientConnectionState::create(&hand) {
                    Ok(c) => c,
                    Err(_) => return SessionAction::Close,
                };
                self.phase = SessionPhase::Connecting;
                self.connection = connection;
                self.handshake = hand.get_all();
                SessionAction::ConnectBackend
            },
            SessionPhase::Connecting => match event {
                SessionEvent::BackendReachable => {
                    self.phase = SessionPhase::Relaying;
                    let handshake = crate::types::copy_vec(&self.handshake);
                    SessionAction::StartRelay { handshake, connection: self.connection }
                },
                SessionEvent::BackendUnreachable { starting } => {
                    self.starting = starting;
                    match self.connection.state {
                        ProtocolState::Status => {
                            self.phase = SessionPhase::OfflineStatus;
                            SessionAction::ReadFrame
                        },
                        ProtocolState::Login => {
                            self.phase = SessionPhase::OfflineLogin;
                            SessionAction::ReadFrame
                        },
                        _ => {
                            self.phase = SessionPhase::Closed;
                            SessionAction::Close
                        },
                    }
                },
                _ => {
                    self.phase = SessionPhase::Closed;
                    SessionAction::Close
                },
            },
            SessionPhase::OfflineStatus => match event {
                SessionEvent::ClientFrame(p) => {
                    if p.get_id() == 0 {
                        self.phase = SessionPhase::OfflinePing;
                        SessionAction::SendStatus(
                            offline_status(self.connection.protocol_version, self.starting),
                        )
                    } else {
                        self.phase = SessionPhase::Closed;
                        SessionAction::Close
                    }
                },
                _ => {
                    self.phase = SessionPhase::Closed;
                    SessionAction::Close
                },
            },
            SessionPhase::OfflinePing => {
                self.phase = SessionPhase::Closed;
                match event {
                    SessionEvent::ClientFrame(p) => {
                        if p.get_id() == 1 {
                            SessionAction::ReplyAndClose(crate::types::copy_vec(p.raw()))
                        } else {
                            SessionAction::Close
                        }
                    },
                    _ => SessionAction::Close,
                }
            },
            SessionPhase::OfflineLogin => {
                self.phase = SessionPhase::Closed;
                match event {
                    SessionEvent::ClientFrame(_) => SessionAction::RefuseAndSpawn(
                        refusal(self.starting),
                    ),
                    _ => SessionAction::Close,
                }
            },
            _ => {
                self.phase = SessionPhase::Closed;
                SessionAction::Close
            },
        }
    }
}

/// The wire form of the disconnect frame for a login that finds the backend
/// down.
pub fn refusal(starting: bool) -> (r: Vec<u8>)
    ensures
        r@ == refusal_frame(starting),
{
    let reason = if starting {
        STARTING_REASON
    } else {
        SPAWNING_REASON
    };
    proof {
        reveal_strlit("Starting...§d<3§r");
        reveal_strlit("Okayyy_starting_it_now...§d<3§r");
        lemma_short_string_encode(reason@);
        lemma_varint_round_trip(0, Seq::empty());
        assert(varint_encode(0) + Seq::<u8>::empty() =~= varint_encode(0));
        assert(fits_frame(reason@));
    }
    match Disconnect::set_reason(reason.to_owned()) {
        Some(d) => d.get_all(),
        None => Vec::new(),
    }
}

} // verus!
