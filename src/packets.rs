use vstd::prelude::*;

use crate::connection::ProtocolState;
use crate::types::{
    copy_range, copy_vec, is_varint_of, lemma_varint_encode_valid, lemma_varint_round_trip,
    varint_encode, varint_read, CodecError, VarInt,
};

verus! {

/// Packet id that a peer sends to say that no more data follows.
pub const CLOSED_ID: i32 = 122;

/// The wire form of a frame: the byte length of the rest, then the id, then
/// the payload, both VarInts in their shortest form.
pub open spec fn frame_encode(id: i32, payload: Seq<u8>) -> Seq<u8> {
    let body = varint_encode(id) + payload;
    varint_encode(body.len() as i32) + body
}

/// What reading one frame from the start of `bytes` gives.
pub enum FrameRead {
    /// A whole frame with this id, whose payload is `bytes[start..end]`, and
    /// which ends at `end`.
    Frame { id: i32, start: nat, end: nat },
    /// The id is the end-of-data marker.
    Closed,
    /// At least this many more bytes are needed to decide.
    Incomplete(nat),
    /// No frame can start with these bytes.
    Malformed(CodecError),
}

/// The frame at the start of `bytes`. The id is looked at as soon as its bytes
/// are there, before the payload; a length prefix must leave room for the id.
pub open spec fn frame_read(bytes: Seq<u8>) -> FrameRead {
    match varint_read(bytes) {
        Err(CodecError::Truncated) => FrameRead::Incomplete(1),
        Err(e) => FrameRead::Malformed(e),
        Ok((len, n)) => if len < 1 {
            FrameRead::Malformed(CodecError::InvalidLength)
        } else {
            let end = n + len;
            let complete = bytes.len() >= end;
            let body = if complete {
                bytes.subrange(n as int, end)
            } else {
                bytes.subrange(n as int, bytes.len() as int)
            };
            match varint_read(body) {
                Err(CodecError::Truncated) => if complete {
                    FrameRead::Malformed(CodecError::InvalidLength)
                } else {
                    FrameRead::Incomplete(1)
                },
                Err(e) => FrameRead::Malformed(e),
                Ok((id, m)) => if id == CLOSED_ID {
                    FrameRead::Closed
                } else if !complete {
                    FrameRead::Incomplete((end - bytes.len()) as nat)
                } else {
                    FrameRead::Frame { id, start: n + m, end: end as nat }
                },
            }
        },
    }
}

/// A frame that is read back from its own wire form, followed by anything,
/// has the id and payload it was built from and ends where its wire form ends.
pub proof fn lemma_frame_round_trip(id: i32, payload: Seq<u8>, rest: Seq<u8>)
    requires
        id != CLOSED_ID,
        varint_encode(id).len() + payload.len() <= i32::MAX,
    ensures
        frame_read(frame_encode(id, payload) + rest) == (FrameRead::Frame {
            id,
            start: (frame_encode(id, payload).len() - payload.len()) as nat,
            end: frame_encode(id, payload).len(),
        }),
{
    let body = varint_encode(id) + payload;
    let len = body.len() as i32;
    let prefix = varint_encode(len);
    let bytes = frame_encode(id, payload) + rest;
    assert(bytes =~= prefix + (body + rest));
    lemma_varint_round_trip(len, body + rest);
    let n = prefix.len();
    assert(bytes.subrange(n as int, n + len) =~= varint_encode(id) + payload);
    lemma_varint_round_trip(id, payload);
}

/// What a `Packet` holds: its id and declared length with the bytes each was
/// read from or written as, its payload and its whole wire form.
pub struct PacketView {
    pub id: i32,
    pub id_bytes: Seq<u8>,
    pub length: i32,
    pub length_bytes: Seq<u8>,
    pub payload: Seq<u8>,
    pub all: Seq<u8>,
}

impl PacketView {
    /// The declared length counts the id's bytes and the payload, and the
    /// wire form is the length, the id and the payload, in that order.
    pub open spec fn valid(self) -> bool {
        &&& is_varint_of(self.id_bytes, self.id)
        &&& is_varint_of(self.length_bytes, self.length)
        &&& self.length == self.id_bytes.len() + self.payload.len()
        &&& self.all == self.length_bytes + self.id_bytes + self.payload
    }
}

/// One frame of the protocol. Its wire form is kept exactly as it was read,
/// so that a frame passed through unchanged is forwarded byte for byte.
#[derive(Debug)]
pub struct Packet {
    id: VarInt,
    length: VarInt,
    data: Vec<u8>,
    all: Vec<u8>,
}

impl View for Packet {
    type V = PacketView;

    closed spec fn view(&self) -> PacketView {
        PacketView {
            id: self.id@.value,
            id_bytes: self.id@.data,
            length: self.length@.value,
            length_bytes: self.length@.data,
            payload: self.data@,
            all: self.all@,
        }
    }
}

/// What reading one frame from a buffer gives.
#[derive(Debug)]
pub enum FrameOutcome {
    Frame(Packet),
    /// The peer sent the end-of-data marker.
    Closed,
    /// At least this many more bytes are needed.
    Incomplete(usize),
    Malformed(CodecError),
}

impl Packet {
    #[verifier::type_invariant]
    spec fn well_formed(self) -> bool {
        self@.valid()
    }

    pub fn get_id(&self) -> (r: i32)
        ensures
            r == self@.id,
    {
        self.id.get_int()
    }

    pub fn payload(&self) -> (r: &Vec<u8>)
        ensures
            r@ == self@.payload,
    {
        &self.data
    }

    /// The whole wire form, as it was read or built.
    pub fn raw(&self) -> (r: &Vec<u8>)
        ensures
            r@ == self@.all,
            self@.valid(),
    {
        proof {
            use_type_invariant(self);
        }
        &self.all
    }

    /// Builds the frame with id `id` and payload `data`; `None` when the
    /// frame's length does not fit a VarInt.
    pub fn from_bytes(id: i32, data: Vec<u8>) -> (r: Option<Packet>)
        ensures
            match r {
                Some(p) => {
                    &&& varint_encode(id).len() + data@.len() <= i32::MAX
                    &&& p@.id == id
                    &&& p@.payload == data@
                    &&& p@.all == frame_encode(id, data@)
                    &&& p@.valid()
                },
                None => varint_encode(id).len() + data@.len() > i32::MAX,
            },
    {
        let id = VarInt::from(id);
        let id_len = id.len();
        if data.len() > (i32::MAX as usize) - id_len {
            return None;
        }
        let length = VarInt::from((data.len() + id_len) as i32);
        let mut all = length.get_data();
        let mut id_bytes = id.get_data();
        let mut payload = copy_vec(&data);
        all.append(&mut id_bytes);
        all.append(&mut payload);
        proof {
            lemma_varint_encode_valid(id@.value);
            lemma_varint_encode_valid(length@.value);
            assert(all@ =~= frame_encode(id@.value, data@));
        }
        Some(Packet { id, length, data, all })
    }

    /// Builds the frame with id `id` and payload `data`, as `from_bytes` does.
    pub fn new(id: i32, data: Vec<u8>) -> (r: Option<Packet>)
        ensures
            match r {
                Some(p) => {
                    &&& varint_encode(id).len() + data@.len() <= i32::MAX
                    &&& p@.id == id
                    &&& p@.payload == data@
                    &&& p@.all == frame_encode(id, data@)
                    &&& p@.valid()
                },
                None => varint_encode(id).len() + data@.len() > i32::MAX,
            },
    {
        Packet::from_bytes(id, data)
    }

    /// The wire form computed afresh from the id's bytes and the payload, with
    /// the length in its shortest form.
    pub fn all(&self) -> (r: Option<Vec<u8>>)
        ensures
            match r {
                Some(v) => v@ == varint_encode((self@.id_bytes.len() + self@.payload.len()) as i32)
                    + self@.id_bytes + self@.payload,
                None => false,
            },
    {
        proof {
            use_type_invariant(self);
        }
        let mut body = self.id.get_data();
        let mut payload = copy_vec(&self.data);
        body.append(&mut payload);
        let mut all = VarInt::from(body.len() as i32).move_data();
        all.append(&mut body);
        Some(all)
    }

    /// The frame at the start of `data`: a whole frame, the end-of-data
    /// marker, how many more bytes are needed at least, or why no frame can
    /// start there. Only the bytes up to the end of the frame are looked at.
    pub fn parse(data: &[u8]) -> (r: FrameOutcome)
        ensures
            match (r, frame_read(data@)) {
                (FrameOutcome::Frame(p), FrameRead::Frame { id, start, end }) => {
                    &&& p@.id == id
                    &&& p@.payload == data@.subrange(start as int, end as int)
                    &&& p@.all == data@.take(end as int)
                    &&& p@.valid()
                },
                (FrameOutcome::Closed, FrameRead::Closed) => true,
                (FrameOutcome::Incomplete(k), FrameRead::Incomplete(sk)) => k == sk && k >= 1,
                (FrameOutcome::Malformed(e), FrameRead::Malformed(se)) => e == se,
                _ => false,
            },
    {
        let dlen: usize = data.len();
        proof {
            assert(data@.skip(0) =~= data@);
        }
        let length = match VarInt::parse(data, 0) {
            Ok(v) => v,
            Err(CodecError::Truncated) => return FrameOutcome::Incomplete(1),
            Err(e) => return FrameOutcome::Malformed(e),
        };
        proof {
            assert(data@.skip(0) =~= data@);
        }
        let len: i32 = length.get_int();
        let n: usize = length.len();
        if len < 1 {
            return FrameOutcome::Malformed(CodecError::InvalidLength);
        }
        let want: usize = len as usize;
        let avail: usize = dlen - n;
        let complete: bool = avail >= want;
        let body_end: usize = if complete { n + want } else { dlen };
        let body = copy_range(data, n, body_end);
        proof {
            assert(body@.skip(0) =~= body@);
        }
        let id = match VarInt::parse(body.as_slice(), 0) {
            Ok(v) => v,
            Err(CodecError::Truncated) => {
                proof {
                    assert(body@.skip(0) =~= body@);
                }
                return if complete {
                    FrameOutcome::Malformed(CodecError::InvalidLength)
                } else {
                    FrameOutcome::Incomplete(1)
                };
            },
            Err(e) => {
                proof {
                    assert(body@.skip(0) =~= body@);
                }
                return FrameOutcome::Malformed(e);
            },
        };
        proof {
            assert(body@.skip(0) =~= body@);
        }
        if id.get_int() == CLOSED_ID {
            return FrameOutcome::Closed;
        }
        if !complete {
            return FrameOutcome::Incomplete(want - avail);
        }
        let m: usize = id.len();
        let payload = copy_range(body.as_slice(), m, body.len());
        let all = copy_range(data, 0, n + want);
        proof {
            assert(length@.data =~= data@.subrange(0, n as int));
            assert(id@.data =~= data@.subrange(n as int, n + m));
            assert(payload@ =~= data@.subrange(n + m, n + want));
            assert(all@ =~= length@.data + id@.data + payload@);
            assert(all@ =~= data@.take((n + want) as int));
        }
        FrameOutcome::Frame(Packet { id, length, data: payload, all })
    }

    /// Name of the message that this frame is in `state`, for logs.
    pub fn proto_name(&self, state: &ProtocolState) -> (r: String)
        ensures
            r@ == packet_name(*state, self@.id)@,
    {
        let id = self.id.get_int();
        match state {
            ProtocolState::Handshaking => if id == 0 {
                "Handshake".to_owned()
            } else {
                "error".to_owned()
            },
            ProtocolState::Status => if id == 0 {
                "StatusRequest".to_owned()
            } else if id == 1 {
                "PingRequest".to_owned()
            } else {
                "error".to_owned()
            },
            _ => "Dont care state".to_owned(),
        }
    }
}

/// Name of the serverbound message with id `id` in `state`.
pub open spec fn packet_name(state: ProtocolState, id: i32) -> &'static str {
    match state {
        ProtocolState::Handshaking => if id == 0 {
            "Handshake"
        } else {
            "error"
        },
        ProtocolState::Status => if id == 0 {
            "StatusRequest"
        } else if id == 1 {
            "PingRequest"
        } else {
            "error"
        },
        _ => "Dont care state",
    }
}

} // verus!
