use vstd::prelude::*;

use crate::packets::{frame_encode, Packet};
use crate::types::{
    copy_vec, encode_utf8_len, ushort_encode, ushort_read, var_string_encode, var_string_read,
    varint_encode, varint_read, UShort, VarInt, VarString,
};

verus! {

/// The fields of a handshake payload, in wire order: protocol version,
/// server address, server port and the requested next state.
pub open spec fn handshake_read(p: Seq<u8>) -> Option<(i32, Seq<char>, u16, i32)> {
    match varint_read(p) {
        Err(_) => None,
        Ok((version, a)) => match var_string_read(p.skip(a as int)) {
            Err(_) => None,
            Ok((address, b)) => match ushort_read(p.skip((a + b) as int)) {
                Err(_) => None,
                Ok(port) => match varint_read(p.skip((a + b + 2) as int)) {
                    Err(_) => None,
                    Ok((next, _)) => Some((version, address, port, next)),
                },
            },
        },
    }
}

/// The payload of a handshake whose VarInt fields are written as `version`
/// and `next`.
pub open spec fn handshake_payload(version: Seq<u8>, address: Seq<char>, port: u16, next: Seq<u8>) -> Seq<u8> {
    version + var_string_encode(address) + ushort_encode(port) + next
}

/// The address's length fits a VarInt and so does the length of the frame
/// that carries this handshake.
pub open spec fn handshake_fits(version: Seq<u8>, address: Seq<char>, port: u16, next: Seq<u8>) -> bool {
    &&& encode_utf8_len(address) <= i32::MAX
    &&& varint_encode(0).len() + handshake_payload(version, address, port, next).len() <= i32::MAX
}

/// What a `Handshake` holds.
pub struct HandshakeView {
    pub protocol_version: i32,
    pub server_address: Seq<char>,
    pub server_port: u16,
    pub next_state: i32,
    pub all: Seq<u8>,
}

/// The first message of every connection (id 0x00, Handshaking state).
pub struct Handshake {
    protocol_version: VarInt,
    server_address: VarString,
    server_port: UShort,
    next_state: VarInt,
    all: Vec<u8>,
}

impl View for Handshake {
    type V = HandshakeView;

    closed spec fn view(&self) -> HandshakeView {
        HandshakeView {
            protocol_version: self.protocol_version@.value,
            server_address: self.server_address@,
            server_port: self.server_port@,
            next_state: self.next_state@.value,
            all: self.all@,
        }
    }
}

impl Handshake {
    /// Reads the handshake fields from the frame's payload; `None` when they
    /// do not decode. Bytes after the fields are ignored.
    pub fn parse(packet: Packet) -> (r: Option<Handshake>)
        ensures
            match (r, handshake_read(packet@.payload)) {
                (Some(h), Some((version, address, port, next))) => {
                    &&& h@.protocol_version == version
                    &&& h@.server_address == address
                    &&& h@.server_port == port
                    &&& h@.next_state == next
                    &&& h@.all == packet@.all
                },
                (None, None) => true,
                _ => false,
            },
    {
        let payload = packet.payload().as_slice();
        let plen: usize = payload.len();
        proof {
            assert(payload@.skip(0) =~= payload@);
        }
        let protocol_version = match VarInt::parse(payload, 0) {
            Ok(v) => v,
            Err(_) => return None,
        };
        let a: usize = protocol_version.len();
        let (server_address, b) = match VarString::parse(payload, a) {
            Ok(v) => v,
            Err(_) => return None,
        };
        let server_port = match UShort::parse(payload, a + b) {
            Ok(v) => v,
            Err(_) => return None,
        };
        if plen - (a + b) < 2 {
            return None;
        }
        let next_state = match VarInt::parse(payload, a + b + 2) {
            Ok(v) => v,
            Err(_) => return None,
        };
        let all = copy_vec(packet.raw());
        Some(Handshake { protocol_version, server_address, server_port, next_state, all })
    }

    pub fn get_server_address(&self) -> (r: String)
        ensures
            r@ == self@.server_address,
    {
        self.server_address.get_value()
    }

    pub fn get_next_state(&self) -> (r: i32)
        ensures
            r == self@.next_state,
    {
        self.next_state.get_int()
    }

    pub fn get_protocol_version(&self) -> (r: i32)
        ensures
            r == self@.protocol_version,
    {
        self.protocol_version.get_int()
    }

    pub fn get_server_port(&self) -> (r: u16)
        ensures
            r == self@.server_port,
    {
        self.server_port.get_value()
    }

    /// The frame's wire form, to forward it unchanged.
    pub fn get_all(&self) -> (r: Vec<u8>)
        ensures
            r@ == self@.all,
    {
        copy_vec(&self.all)
    }

    /// A handshake frame with these fields, each written as the given value
    /// holds it; `None` when the address or the frame is too long for a
    /// VarInt length.
    pub fn create(
        protocol_version: VarInt,
        server_address: VarString,
        server_port: UShort,
        next_state: VarInt,
    ) -> (r: Option<Handshake>)
        ensures
            match r {
                Some(h) => {
                    &&& h@.protocol_version == protocol_version@.value
                    &&& h@.server_address == server_address@
                    &&& h@.server_port == server_port@
                    &&& h@.next_state == next_state@.value
                    &&& h@.all == frame_encode(
                        0,
                        handshake_payload(
                            protocol_version@.data,
                            server_address@,
                            server_port@,
                            next_state@.data,
                        ),
                    )
                },
                None => !handshake_fits(
                    protocol_version@.data,
                    server_address@,
                    server_port@,
                    next_state@.data,
                ),
            },
    {
        let mut body = protocol_version.get_data();
        let mut address = match server_address.get_data() {
            Some(v) => v,
            None => return None,
        };
        let mut port = server_port.get_data();
        let mut next = next_state.get_data();
        body.append(&mut address);
        body.append(&mut port);
        body.append(&mut next);
        let packet = match Packet::from_bytes(0, body) {
            Some(p) => p,
            None => return None,
        };
        let all = copy_vec(packet.raw());
        Some(Handshake { protocol_version, server_address, server_port, next_state, all })
    }
}

/// The client's request for the status document (id 0x00, Status state, no
/// payload).
pub struct StatusRequest {
    all: Vec<u8>,
}

impl View for StatusRequest {
    type V = Seq<u8>;

    closed spec fn view(&self) -> Seq<u8> {
        self.all@
    }
}

impl StatusRequest {
    /// Keeps the frame's wire form, to forward it unchanged.
    pub fn parse(packet: Packet) -> (r: Option<StatusRequest>)
        ensures
            match r {
                Some(s) => s@ == packet@.all,
                None => false,
            },
    {
        Some(StatusRequest { all: copy_vec(packet.raw()) })
    }

    pub fn get_all(&self) -> (r: Vec<u8>)
        ensures
            r@ == self@,
    {
        copy_vec(&self.all)
    }
}

} // verus!
