use vstd::prelude::*;

use crate::handshake::{handshake_fits, handshake_payload, Handshake};
use crate::packets::{frame_encode, Packet};
use crate::status::{StatusDocument, StatusTrait};
use crate::types::{
    lemma_varint_encode_valid, lemma_varint_round_trip, varint_encode, UShort, VarInt, VarString,
};

verus! {

/// Protocol version that the idle probe announces.
pub const PROBE_PROTOCOL_VERSION: i32 = 746;

/// Server port that the idle probe announces.
pub const PROBE_PORT: u16 = 1234;

/// Seconds between two idle probes of a running backend.
pub const POLL_FREQUENCY: u64 = 10;

/// Seconds a backend may stay empty, past the grace period, before it is
/// stopped.
pub const IDLE_TIMEOUT: u64 = 600;

/// Seconds of grace after the backend starts and after its players leave.
pub const GRACE_PERIOD: u64 = 600;

/// What one idle probe of the backend found.
#[derive(Debug, Clone, Copy, PartialEq, Eq, Structural)]
pub enum ProbeResult {
    /// No connection: the backend is starting, restarting or gone.
    Unreachable,
    /// The backend answered with this many players online.
    Online(i32),
    /// The backend answered with a status that fits no known schema.
    Unparseable,
}

impl ProbeResult {
    /// The result of a probe that reached the backend and got `document`, the
    /// status document of its answer when that could be read.
    pub fn from_document(document: Option<StatusDocument>) -> (r: ProbeResult)
        ensures
            r == match document {
                Some(d) => ProbeResult::Online(d.players_online()),
                None => ProbeResult::Unparseable,
            },
    {
        match document {
            Some(d) => ProbeResult::Online(d.get_players_online()),
            None => ProbeResult::Unparseable,
        }
    }
}

/// The bytes the idle probe sends: a handshake that asks for the Status
/// state, with `address` as the server address, then an empty status
/// request. `None` when the address is too long for a frame.
pub fn probe_request(address: String) -> (r: Option<Vec<u8>>)
    ensures
        match r {
            Some(bytes) => bytes@ == frame_encode(
                0,
                handshake_payload(
                    varint_encode(PROBE_PROTOCOL_VERSION),
                    address@,
                    PROBE_PORT,
                    varint_encode(1),
                ),
            ) + frame_encode(0, Seq::empty()),
            None => !handshake_fits(
                varint_encode(PROBE_PROTOCOL_VERSION),
                address@,
                PROBE_PORT,
                varint_encode(1),
            ),
        },
{
    proof {
        lemma_varint_round_trip(0, Seq::empty());
        assert(varint_encode(0) + Seq::<u8>::empty() =~= varint_encode(0));
        lemma_varint_encode_valid(PROBE_PROTOCOL_VERSION);
        lemma_varint_encode_valid(1);
    }
    let hand = match Handshake::create(
        VarInt::from(PROBE_PROTOCOL_VERSION),
        VarString::from(address),
        UShort::from(PROBE_PORT),
        VarInt::from(1),
    ) {
        Some(h) => h,
        None => return None,
    };
    let request = match Packet::from_bytes(0, Vec::new()) {
        Some(p) => p,
        None => return None,
    };
    let mut bytes = hand.get_all();
    let mut tail = crate::types::copy_vec(request.raw());
    bytes.append(&mut tail);
    Some(bytes)
}

/// What the idle controller decides on one tick.
#[derive(Debug, Clone, Copy, PartialEq, Eq, Structural)]
pub enum IdleDecision {
    /// Keep polling.
    Continue,
    /// Send the backend the stop command and end the loop.
    Stop,
    /// The backend is not running: end the loop.
    Finish,
}

/// What an `IdleMonitor` holds.
pub struct IdleMonitorView {
    pub frequency: u64,
    pub timeout: u64,
    pub grace_period: u64,
    pub idle_timer: u64,
}

/// One tick of the idle controller: the new state and the decision.
pub open spec fn idle_step(m: IdleMonitorView, running: bool, probe: ProbeResult) -> (IdleMonitorView, IdleDecision) {
    if !running {
        (m, IdleDecision::Finish)
    } else {
        match probe {
            ProbeResult::Online(n) => if n > 0 {
                (IdleMonitorView { idle_timer: m.grace_period, ..m }, IdleDecision::Continue)
            } else {
                let t = m.idle_timer + m.frequency;
                if t >= m.timeout + m.grace_period {
                    (IdleMonitorView { idle_timer: 0, ..m }, IdleDecision::Stop)
                } else {
                    (IdleMonitorView { idle_timer: t as u64, ..m }, IdleDecision::Continue)
                }
            },
            _ => (m, IdleDecision::Continue),
        }
    }
}

/// The idle-shutdown controller of a running backend: it counts the seconds
/// the backend has been empty and decides when to stop it.
pub struct IdleMonitor {
    frequency: u64,
    timeout: u64,
    grace_period: u64,
    idle_timer: u64,
}

impl View for IdleMonitor {
    type V = IdleMonitorView;

    closed spec fn view(&self) -> IdleMonitorView {
        IdleMonitorView {
            frequency: self.frequency,
            timeout: self.timeout,
            grace_period: self.grace_period,
            idle_timer: self.idle_timer,
        }
    }
}

impl IdleMonitor {
    #[verifier::type_invariant]
    spec fn within_bounds(self) -> bool {
        &&& self.frequency + self.timeout + self.grace_period <= u64::MAX
        &&& self.idle_timer <= self.timeout + self.grace_period
    }

    /// A controller that polls every `frequency` seconds and stops the backend
    /// once it has been empty for `timeout` seconds past the grace period.
    pub fn new(frequency: u64, timeout: u64, grace_period: u64) -> (r: IdleMonitor)
        requires
            frequency + timeout + grace_period <= u64::MAX,
        ensures
            r@ == (IdleMonitorView { frequency, timeout, grace_period, idle_timer: 0 }),
    {
        IdleMonitor { frequency, timeout, grace_period, idle_timer: 0 }
    }

    pub fn idle_timer(&self) -> (r: u64)
        ensures
            r == self@.idle_timer,
    {
        self.idle_timer
    }

    /// One tick: `running` says whether the backend process is alive and
    /// `probe` what querying it found (not looked at when it is not running).
    /// Players online re-arm the full grace period; an empty backend adds the
    /// poll interval to the idle time and is stopped once that reaches the
    /// timeout plus the grace period; an unreachable or unreadable backend
    /// leaves the idle time as it is.
    pub fn tick(&mut self, running: bool, probe: ProbeResult) -> (d: IdleDecision)
        ensures
            (final(self)@, d) == idle_step(old(self)@, running, probe),
    {
        proof {
            use_type_invariant(&*self);
        }
        if !running {
            return IdleDecision::Finish;
        }
        match probe {
            ProbeResult::Online(n) => {
                if n > 0 {
                    self.idle_timer = self.grace_period;
                    IdleDecision::Continue
                } else {
                    let t = self.idle_timer + self.frequency;
                    if t >= self.timeout + self.grace_period {
                        self.idle_timer = 0;
                        IdleDecision::Stop
                    } else {
                        self.idle_timer = t;
                        IdleDecision::Continue
                    }
                }
            },
            _ => IdleDecision::Continue,
        }
    }
}

} // verus!
