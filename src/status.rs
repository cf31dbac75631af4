use vstd::prelude::*;
use vstd::string::*;

use crate::packets::{frame_encode, Packet};
use crate::types::{copy_vec, var_string_encode, var_string_read, VarString};
use crate::login::fits_frame;

verus! {

/// Text appended to the description of every status document relayed from
/// the backend.
pub const PROXY_BANNER: &'static str = "\n    §dRusty proxy <3 version§r";

/// Description of the stand-in status while the backend is starting.
pub const STARTING_DESCRIPTION: &'static str = "§a Server is starting...§r please wait\n - §dTami§r with §d<3§r";

/// Description of the stand-in status while the backend is not running.
pub const OFFLINE_DESCRIPTION: &'static str = "Server is currently §onot§r running. \n§aJoin to start it!§r - §dTami§r with §d<3§r";

/// Version name of the stand-in status.
pub const UNKNOWN_VERSION_NAME: &'static str = "???";

/// Description of a fresh default document.
pub const DEFAULT_DESCRIPTION: &'static str = "Proxy default config";

#[derive(Debug, Clone)]
pub struct StatusVersion {
    pub name: String,
    pub protocol: i32,
}

#[derive(Debug, Clone)]
pub struct StatusPlayers {
    pub max: i32,
    pub online: i32,
}

#[derive(Debug, Clone)]
pub struct StatusDescription {
    pub text: String,
}

/// The status document whose description is an object with a `text` field.
/// `extra` holds every other top-level field, as its name and its JSON text.
#[derive(Debug)]
pub struct StatusStructNew {
    pub version: StatusVersion,
    pub enforces_secure_chat: Option<bool>,
    pub description: StatusDescription,
    pub players: StatusPlayers,
    pub extra: Vec<(String, String)>,
}

/// The older status document whose description is a plain string.
/// `extra` holds every other top-level field, as its name and its JSON text.
#[derive(Debug)]
pub struct StatusStructOld {
    pub version: StatusVersion,
    pub description: String,
    pub players: StatusPlayers,
    pub extra: Vec<(String, String)>,
}

/// A status document in either schema.
#[derive(Debug)]
pub enum StatusDocument {
    Modern(StatusStructNew),
    Legacy(StatusStructOld),
}

/// What every schema of the status document offers.
pub trait StatusTrait {
    spec fn players_online(&self) -> i32;

    spec fn description_text(&self) -> Seq<char>;

    fn get_players_online(&self) -> (r: i32)
        ensures
            r == self.players_online(),
    ;

    fn set_description(&mut self, text: String)
        ensures
            final(self).description_text() == text@,
            final(self).players_online() == old(self).players_online(),
    ;

    fn get_description(&self) -> (r: String)
        ensures
            r@ == self.description_text(),
    ;
}

impl StatusTrait for StatusStructNew {
    open spec fn players_online(&self) -> i32 {
        self.players.online
    }

    open spec fn description_text(&self) -> Seq<char> {
        self.description.text@
    }

    fn get_players_online(&self) -> (r: i32) {
        self.players.online
    }

    fn set_description(&mut self, text: String) {
        self.description.text = text;
    }

    fn get_description(&self) -> (r: String) {
        self.description.text.clone()
    }
}

impl StatusTrait for StatusStructOld {
    open spec fn players_online(&self) -> i32 {
        self.players.online
    }

    open spec fn description_text(&self) -> Seq<char> {
        self.description@
    }

    fn get_players_online(&self) -> (r: i32) {
        self.players.online
    }

    fn set_description(&mut self, text: String) {
        self.description = text;
    }

    fn get_description(&self) -> (r: String) {
        self.description.clone()
    }
}

impl StatusTrait for StatusDocument {
    open spec fn players_online(&self) -> i32 {
        match self {
            StatusDocument::Modern(d) => d.players.online,
            StatusDocument::Legacy(d) => d.players.online,
        }
    }

    open spec fn description_text(&self) -> Seq<char> {
        match self {
            StatusDocument::Modern(d) => d.description.text@,
            StatusDocument::Legacy(d) => d.description@,
        }
    }

    fn get_players_online(&self) -> (r: i32) {
        match self {
            StatusDocument::Modern(d) => d.get_players_online(),
            StatusDocument::Legacy(d) => d.get_players_online(),
        }
    }

    fn set_description(&mut self, text: String) {
        match self {
            StatusDocument::Modern(d) => d.description.text = text,
            StatusDocument::Legacy(d) => d.description = text,
        }
    }

    fn get_description(&self) -> (r: String) {
        match self {
            StatusDocument::Modern(d) => d.get_description(),
            StatusDocument::Legacy(d) => d.get_description(),
        }
    }
}

/// `b` is `a` with another description text: the schema, version, players,
/// secure-chat flag and every other field are the same.
pub open spec fn same_but_description(a: StatusDocument, b: StatusDocument) -> bool {
    match (a, b) {
        (StatusDocument::Modern(x), StatusDocument::Modern(y)) => {
            &&& y.version == x.version
            &&& y.players == x.players
            &&& y.enforces_secure_chat == x.enforces_secure_chat
            &&& y.extra == x.extra
        },
        (StatusDocument::Legacy(x), StatusDocument::Legacy(y)) => {
            &&& y.version == x.version
            &&& y.players == x.players
            &&& y.extra == x.extra
        },
        _ => false,
    }
}

impl StatusDocument {
    /// The document with the proxy's banner appended to its description;
    /// everything else is left as it is.
    pub fn with_banner(self) -> (r: StatusDocument)
        ensures
            r.description_text() == self.description_text() + PROXY_BANNER@,
            same_but_description(self, r),
    {
        match self {
            StatusDocument::Modern(d) => {
                let StatusStructNew { version, enforces_secure_chat, description, players, extra } =
                    d;
                let mut text = description.text;
                text.append(PROXY_BANNER);
                StatusDocument::Modern(
                    StatusStructNew {
                        version,
                        enforces_secure_chat,
                        description: StatusDescription { text },
                        players,
                        extra,
                    },
                )
            },
            StatusDocument::Legacy(d) => {
                let StatusStructOld { version, description, players, extra } = d;
                let mut text = description;
                text.append(PROXY_BANNER);
                StatusDocument::Legacy(StatusStructOld { version, description: text, players, extra })
            },
        }
    }
}

impl StatusStructNew {
    /// A default document: unknown version, no players, secure chat not
    /// enforced, no other fields.
    pub fn create() -> (r: StatusStructNew)
        ensures
            r.version.name@ == UNKNOWN_VERSION_NAME@,
            r.version.protocol == -1,
            r.enforces_secure_chat == Some(false),
            r.description.text@ == DEFAULT_DESCRIPTION@,
            r.players.max == 0,
            r.players.online == 0,
            r.extra@.len() == 0,
    {
        StatusStructNew {
            version: StatusVersion { name: UNKNOWN_VERSION_NAME.to_owned(), protocol: -1 },
            enforces_secure_chat: Some(false),
            description: StatusDescription { text: DEFAULT_DESCRIPTION.to_owned() },
            players: StatusPlayers { max: 0, online: 0 },
            extra: Vec::new(),
        }
    }
}

/// The status document the proxy serves itself while the backend cannot be
/// reached: the client's own protocol version, room for one player, one
/// player online while the backend is starting and none otherwise, and a
/// description that says which of the two holds.
pub fn offline_status(protocol_version: i32, starting: bool) -> (r: StatusStructNew)
    ensures
        r.version.name@ == UNKNOWN_VERSION_NAME@,
        r.version.protocol == protocol_version,
        r.enforces_secure_chat == Some(false),
        r.players.max == 1,
        r.players.online == (if starting { 1i32 } else { 0i32 }),
        r.description.text@ == (if starting { STARTING_DESCRIPTION@ } else { OFFLINE_DESCRIPTION@ }),
        r.extra@.len() == 0,
{
    let mut doc = StatusStructNew::create();
    doc.version.protocol = protocol_version;
    doc.players.max = 1;
    if starting {
        doc.description.text = STARTING_DESCRIPTION.to_owned();
        doc.players.online = 1;
    } else {
        doc.description.text = OFFLINE_DESCRIPTION.to_owned();
    }
    doc
}

/// What a `StatusResponse` holds: the JSON text and the frame's wire form.
pub struct StatusResponseView {
    pub json: Seq<char>,
    pub all: Seq<u8>,
}

/// The server's answer to a status request (id 0x00, Status state): the
/// status document as JSON text.
#[derive(Debug)]
pub struct StatusResponse {
    json: VarString,
    all: Vec<u8>,
}

impl View for StatusResponse {
    type V = StatusResponseView;

    closed spec fn view(&self) -> StatusResponseView {
        StatusResponseView { json: self.json@, all: self.all@ }
    }
}

impl StatusResponse {
    /// Reads the JSON text from the frame's payload; `None` when it does not
    /// decode as a string.
    pub fn parse(packet: Packet) -> (r: Option<StatusResponse>)
        ensures
            match (r, var_string_read(packet@.payload)) {
                (Some(s), Ok((json, _))) => s@.json == json && s@.all == packet@.all,
                (None, Err(_)) => true,
                _ => false,
            },
    {
        let payload = packet.payload().as_slice();
        proof {
            assert(payload@.skip(0) =~= payload@);
        }
        match VarString::parse(payload, 0) {
            Ok((json, _)) => Some(StatusResponse { json, all: copy_vec(packet.raw()) }),
            Err(_) => None,
        }
    }

    pub fn get_string(&self) -> (r: String)
        ensures
            r@ == self@.json,
    {
        self.json.get_value()
    }

    /// The status response frame that carries the JSON text `json`; `None`
    /// when the text is too long for the frame's length to fit a VarInt.
    pub fn set_json(json: String) -> (r: Option<StatusResponse>)
        ensures
            match r {
                Some(s) => s@.json == json@ && s@.all == frame_encode(0, var_string_encode(json@)),
                None => !fits_frame(json@),
            },
    {
        let json = VarString::from(json);
        let body = match json.get_data() {
            Some(v) => v,
            None => return None,
        };
        let packet = match Packet::from_bytes(0, body) {
            Some(p) => p,
            None => return None,
        };
        let all = copy_vec(packet.raw());
        Some(StatusResponse { json, all })
    }

    pub fn get_all(&self) -> (r: Vec<u8>)
        ensures
            r@ == self@.all,
    {
        copy_vec(&self.all)
    }
}

} // verus!
