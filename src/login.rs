use vstd::prelude::*;

use crate::packets::{frame_encode, Packet};
use crate::types::{copy_vec, encode_utf8_len, var_string_encode, var_string_read, VarString};

verus! {

/// What a `Disconnect` holds: the reason text and the frame's wire form.
pub struct DisconnectView {
    pub reason: Seq<char>,
    pub all: Seq<u8>,
}

/// The server's refusal of a login (id 0x00, Login state), with the text the
/// client shows.
#[derive(Debug)]
pub struct Disconnect {
    reason: VarString,
    all: Vec<u8>,
}

impl View for Disconnect {
    type V = DisconnectView;

    closed spec fn view(&self) -> DisconnectView {
        DisconnectView { reason: self.reason@, all: self.all@ }
    }
}

impl Disconnect {
    /// Reads the reason from the frame's payload; `None` when it does not
    /// decode as a string.
    pub fn parse(packet: Packet) -> (r: Option<Disconnect>)
        ensures
            match (r, var_string_read(packet@.payload)) {
                (Some(d), Ok((reason, _))) => d@.reason == reason && d@.all == packet@.all,
                (None, Err(_)) => true,
                _ => false,
            },
    {
        let payload = packet.payload().as_slice();
        proof {
            assert(payload@.skip(0) =~= payload@);
        }
        match VarString::parse(payload, 0) {
            Ok((reason, _)) => Some(Disconnect { reason, all: copy_vec(packet.raw()) }),
            Err(_) => None,
        }
    }

    pub fn get_string(&self) -> (r: String)
        ensures
            r@ == self@.reason,
    {
        self.reason.get_value()
    }

    /// The disconnect frame with this reason; `None` when the reason is too
    /// long for the frame's length to fit a VarInt.
    pub fn set_reason(reason: String) -> (r: Option<Disconnect>)
        ensures
            match r {
                Some(d) => {
                    &&& d@.reason == reason@
                    &&& d@.all == frame_encode(0, var_string_encode(reason@))
                },
                None => !fits_frame(reason@),
            },
    {
        let reason = VarString::from(reason);
        let body = match reason.get_data() {
            Some(v) => v,
            None => return None,
        };
        let packet = match Packet::from_bytes(0, body) {
            Some(p) => p,
            None => return None,
        };
        let all = copy_vec(packet.raw());
        Some(Disconnect { reason, all })
    }

    pub fn get_all(&self) -> (r: Vec<u8>)
        ensures
            r@ == self@.all,
    {
        copy_vec(&self.all)
    }
}

/// A frame with id 0 whose payload is the string `s` has a length that fits
/// a VarInt.
pub open spec fn fits_frame(s: Seq<char>) -> bool {
    &&& encode_utf8_len(s) <= i32::MAX
    &&& crate::types::varint_encode(0).len() + var_string_encode(s).len() <= i32::MAX
}

} // verus!
