use vstd::prelude::*;

use crate::connection::{ClientConnectionState, ProtocolState};
use crate::packets::Packet;
use crate::status::{same_but_description, StatusDocument, StatusTrait, PROXY_BANNER};
use crate::types::copy_vec;

verus! {

/// How a relay direction moves data in a given connection state.
#[derive(Debug, Clone, Copy, PartialEq, Eq, Structural)]
pub enum RelayMode {
    /// Read whole frames and look at each.
    Frames,
    /// Copy bytes from one socket to the other, unread.
    Splice,
    /// End the direction.
    Stop,
}

/// The mode of a relay direction in `state`. Only Status and Login are
/// relayed; every other state ends the direction.
pub open spec fn mode_of(state: ProtocolState) -> RelayMode {
    match state {
        ProtocolState::Status => RelayMode::Frames,
        ProtocolState::Login => RelayMode::Splice,
        _ => RelayMode::Stop,
    }
}

pub fn relay_mode(state: ProtocolState) -> (r: RelayMode)
    ensures
        r == mode_of(state),
{
    match state {
        ProtocolState::Status => RelayMode::Frames,
        ProtocolState::Login => RelayMode::Splice,
        _ => RelayMode::Stop,
    }
}

/// What a relay direction does with a frame it read in the Status state.
#[derive(Debug)]
pub enum RelayAction {
    /// Write these bytes to the other side and go on.
    Forward(Vec<u8>),
    /// Write this document to the other side as a status response and go on.
    ForwardDocument(StatusDocument),
    /// Write these bytes to the other side and end the direction.
    ForwardAndStop(Vec<u8>),
    /// End the direction without writing.
    Stop,
}

/// The client-to-backend direction in the Status state. A first status
/// request is forwarded; a second one is abuse and shuts the connection
/// down. A ping is forwarded and ends the direction. Any other frame shuts
/// the connection down.
pub fn client_status_step(
    conn: &mut ClientConnectionState,
    request_seen: &mut bool,
    frame: Packet,
) -> (a: RelayAction)
    ensures
        final(conn).protocol_version == old(conn).protocol_version,
        frame@.id == 0 && !*old(request_seen) ==> {
            &&& *final(request_seen)
            &&& final(conn).state == old(conn).state
            &&& match a {
                RelayAction::Forward(b) => b@ == frame@.all,
                _ => false,
            }
        },
        frame@.id == 0 && *old(request_seen) ==> {
            &&& *final(request_seen)
            &&& final(conn).state == ProtocolState::ShutDown
            &&& a is Stop
        },
        frame@.id == 1 ==> {
            &&& *final(request_seen) == *old(request_seen)
            &&& final(conn).state == old(conn).state
            &&& match a {
                RelayAction::ForwardAndStop(b) => b@ == frame@.all,
                _ => false,
            }
        },
        frame@.id != 0 && frame@.id != 1 ==> {
            &&& *final(request_seen) == *old(request_seen)
            &&& final(conn).state == ProtocolState::ShutDown
            &&& a is Stop
        },
{
    let id = frame.get_id();
    if id == 0 {
        if *request_seen {
            conn.state = ProtocolState::ShutDown;
            RelayAction::Stop
        } else {
            *request_seen = true;
            RelayAction::Forward(copy_vec(frame.raw()))
        }
    } else if id == 1 {
        RelayAction::ForwardAndStop(copy_vec(frame.raw()))
    } else {
        conn.state = ProtocolState::ShutDown;
        RelayAction::Stop
    }
}

/// The backend-to-client direction in the Status state. `document` is the
/// status document that the frame carries, when it is a status response whose
/// JSON fits a known schema. A first status response goes to the client with
/// the proxy's banner added to its description, or unchanged when its JSON
/// was not understood; a second one shuts the connection down. A pong is
/// forwarded, shuts the connection down and ends the direction. Any other
/// frame is forwarded.
pub fn server_status_step(
    conn: &mut ClientConnectionState,
    response_seen: &mut bool,
    frame: Packet,
    document: Option<StatusDocument>,
) -> (a: RelayAction)
    ensures
        final(conn).protocol_version == old(conn).protocol_version,
        frame@.id == 0 && !*old(response_seen) ==> {
            &&& *final(response_seen)
            &&& final(conn).state == old(conn).state
            &&& match (a, document) {
                (RelayAction::ForwardDocument(d), Some(doc)) => {
                    &&& d.description_text() == doc.description_text() + PROXY_BANNER@
                    &&& same_but_description(doc, d)
                },
                (RelayAction::Forward(b), None) => b@ == frame@.all,
                _ => false,
            }
        },
        frame@.id == 0 && *old(response_seen) ==> {
            &&& *final(response_seen)
            &&& final(conn).state == ProtocolState::ShutDown
            &&& a is Stop
        },
        frame@.id == 1 ==> {
            &&& *final(response_seen) == *old(response_seen)
            &&& final(conn).state == ProtocolState::ShutDown
            &&& match a {
                RelayAction::ForwardAndStop(b) => b@ == frame@.all,
                _ => false,
            }
        },
        frame@.id != 0 && frame@.id != 1 ==> {
            &&& *final(response_seen) == *old(response_seen)
            &&& final(conn).state == old(conn).state
            &&& match a {
                RelayAction::Forward(b) => b@ == frame@.all,
                _ => false,
            }
        },
{
    let id = frame.get_id();
    if id == 0 {
        if *response_seen {
            conn.state = ProtocolState::ShutDown;
            return RelayAction::Stop;
        }
        *response_seen = true;
        match document {
            Some(doc) => RelayAction::ForwardDocument(doc.with_banner()),
            None => RelayAction::Forward(copy_vec(frame.raw())),
        }
    } else if id == 1 {
        conn.state = ProtocolState::ShutDown;
        RelayAction::ForwardAndStop(copy_vec(frame.raw()))
    } else {
        RelayAction::Forward(copy_vec(frame.raw()))
    }
}

/// The data phase after one copy step that moved `moved` bytes: nothing moved
/// means the peer closed, which shuts the connection down and ends the
/// direction. Returns whether to go on.
pub fn after_transfer(conn: &mut ClientConnectionState, moved: usize) -> (go_on: bool)
    ensures
        go_on == (moved > 0),
        final(conn).protocol_version == old(conn).protocol_version,
        final(conn).state == (if moved == 0 {
            ProtocolState::ShutDown
        } else {
            old(conn).state
        }),
{
    if moved == 0 {
        conn.state = ProtocolState::ShutDown;
        false
    } else {
        true
    }
}

} // verus!
