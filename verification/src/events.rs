//! Typed gateway events.
//!
//! The gateway wraps every WebSocket message in the envelope
//! [`GatewayPayload`].  Protocol opcodes map directly to event variants;
//! opcode 0 carries a named dispatch whose body is decoded outside the
//! library (the typed schemas are serde's work) and handed in as
//! [`DispatchData`].

use vstd::prelude::*;

use crate::outside::value_field;
use crate::text::str_eq;
use crate::types::{Guild, Interaction, Message, PresenceUpdate, ReadyEvent};

verus! {

/// Raw gateway payload envelope: opcode, data, sequence, dispatch name.
#[derive(Debug)]
pub struct GatewayPayload {
    pub op: u8,
    pub d: Option<serde_json::Value>,
    pub s: Option<u64>,
    pub t: Option<String>,
}

/// The decoded body of an opcode-0 dispatch.  `Undecoded` stands for a name
/// without a typed variant, or a body that did not deserialize.
#[derive(Debug)]
pub enum DispatchData {
    Ready(ReadyEvent),
    GuildCreate(Guild),
    MessageCreate(Message),
    PresenceUpdate(PresenceUpdate),
    InteractionCreate(Interaction),
    Undecoded,
}

/// A fully-parsed event coming off the Discord gateway.
#[derive(Debug)]
pub enum GatewayEvent {
    /// We've successfully identified / resumed.
    Ready(ReadyEvent),
    /// Full guild object lazily sent after READY.
    GuildCreate(Guild),
    /// A message was created in a channel we can see.
    MessageCreate(Message),
    /// A user's presence changed.
    PresenceUpdate(PresenceUpdate),
    /// An interaction was created (slash command, button, select, modal).
    InteractionCreate(Interaction),
    /// Heartbeat ACK from the gateway (opcode 11).
    HeartbeatAck,
    /// The gateway is asking us to heartbeat immediately (opcode 1).
    HeartbeatRequest,
    /// Gateway told us to reconnect (opcode 7).
    Reconnect,
    /// Session has been invalidated (opcode 9); the bool says whether it is
    /// resumable.
    InvalidSession(bool),
    /// An event without a typed variant, carrying the raw JSON.
    Unknown { event_name: Option<String>, op: u8, data: Option<serde_json::Value> },
}

impl GatewayEvent {
    /// Convert a raw envelope plus its decoded dispatch body into a typed
    /// event.  This never fails: unrecognised opcodes and undecoded
    /// dispatches become [`GatewayEvent::Unknown`].
    pub fn from_payload(payload: GatewayPayload, dispatch: DispatchData) -> (r: Self)
        ensures
            payload.op == 0 ==> (match dispatch {
                DispatchData::Ready(e) => r == GatewayEvent::Ready(e),
                DispatchData::GuildCreate(g) => r == GatewayEvent::GuildCreate(g),
                DispatchData::MessageCreate(m) => r == GatewayEvent::MessageCreate(m),
                DispatchData::PresenceUpdate(p) => r == GatewayEvent::PresenceUpdate(p),
                DispatchData::InteractionCreate(i) => r == GatewayEvent::InteractionCreate(i),
                DispatchData::Undecoded => r == (GatewayEvent::Unknown {
                    event_name: payload.t,
                    op: 0,
                    data: payload.d,
                }),
            }),
            payload.op == 1 ==> r is HeartbeatRequest,
            payload.op == 7 ==> r is Reconnect,
            payload.op == 9 ==> r is InvalidSession,
            payload.op == 11 ==> r is HeartbeatAck,
            payload.op != 0 && payload.op != 1 && payload.op != 7 && payload.op != 9 && payload.op
                != 11 ==> r == (GatewayEvent::Unknown {
                event_name: payload.t,
                op: payload.op,
                data: payload.d,
            }),
    {
        match payload.op {
            0 => match dispatch {
                DispatchData::Ready(e) => GatewayEvent::Ready(e),
                DispatchData::GuildCreate(g) => GatewayEvent::GuildCreate(g),
                DispatchData::MessageCreate(m) => GatewayEvent::MessageCreate(m),
                DispatchData::PresenceUpdate(p) => GatewayEvent::PresenceUpdate(p),
                DispatchData::InteractionCreate(i) => GatewayEvent::InteractionCreate(i),
                DispatchData::Undecoded => GatewayEvent::Unknown {
                    event_name: payload.t,
                    op: 0,
                    data: payload.d,
                },
            },
            1 => GatewayEvent::HeartbeatRequest,
            7 => GatewayEvent::Reconnect,
            9 => {
                let resumable = match &payload.d {
                    Some(v) => match v.as_bool() {
                        Some(b) => b,
                        None => false,
                    },
                    None => false,
                };
                GatewayEvent::InvalidSession(resumable)
            },
            11 => GatewayEvent::HeartbeatAck,
            _ => GatewayEvent::Unknown { event_name: payload.t, op: payload.op, data: payload.d },
        }
    }
}

/// The dispatch names that have typed variants.
#[derive(Debug, Clone, Copy, PartialEq, Eq, Structural)]
pub enum DispatchKind {
    Ready,
    GuildCreate,
    MessageCreate,
    PresenceUpdate,
    InteractionCreate,
    Other,
}

/// Classify an opcode-0 dispatch name.  The driver decodes the body only for
/// the recognised names; everything else flows through as `Unknown`.
pub fn dispatch_kind(name: &str) -> (r: DispatchKind)
    ensures
        r == DispatchKind::Ready <==> name@ == "READY"@,
        r == DispatchKind::GuildCreate <==> name@ == "GUILD_CREATE"@,
        r == DispatchKind::MessageCreate <==> name@ == "MESSAGE_CREATE"@,
        r == DispatchKind::PresenceUpdate <==> name@ == "PRESENCE_UPDATE"@,
        r == DispatchKind::InteractionCreate <==> name@ == "INTERACTION_CREATE"@,
{
    proof {
        reveal_strlit("READY");
        reveal_strlit("GUILD_CREATE");
        reveal_strlit("MESSAGE_CREATE");
        reveal_strlit("PRESENCE_UPDATE");
        reveal_strlit("INTERACTION_CREATE");
        // the five names have pairwise different lengths
        assert("READY"@.len() == 5);
        assert("GUILD_CREATE"@.len() == 12);
        assert("MESSAGE_CREATE"@.len() == 14);
        assert("PRESENCE_UPDATE"@.len() == 15);
        assert("INTERACTION_CREATE"@.len() == 18);
    }
    if str_eq(name, "READY") {
        DispatchKind::Ready
    } else if str_eq(name, "GUILD_CREATE") {
        DispatchKind::GuildCreate
    } else if str_eq(name, "MESSAGE_CREATE") {
        DispatchKind::MessageCreate
    } else if str_eq(name, "PRESENCE_UPDATE") {
        DispatchKind::PresenceUpdate
    } else if str_eq(name, "INTERACTION_CREATE") {
        DispatchKind::InteractionCreate
    } else {
        DispatchKind::Other
    }
}

/// Why a HELLO payload was rejected.
#[derive(Debug)]
pub enum HelloError {
    /// The first frame did not carry opcode 10.
    WrongOpcode(u8),
    /// The payload has no usable `heartbeat_interval`.
    MissingInterval,
}

/// Extract `heartbeat_interval` (milliseconds) from the HELLO payload.
pub fn hello_heartbeat_interval(p: &GatewayPayload) -> (r: Result<u64, HelloError>)
    ensures
        p.op != 10 <==> r == Err::<u64, HelloError>(HelloError::WrongOpcode(p.op)),
        p.op == 10 && p.d is None ==> r == Err::<u64, HelloError>(HelloError::MissingInterval),
        r is Ok ==> p.op == 10 && p.d is Some,
{
    if p.op != 10 {
        return Err(HelloError::WrongOpcode(p.op));
    }
    match &p.d {
        Some(d) => match value_field(d, "heartbeat_interval") {
            Some(v) => match v.as_u64() {
                Some(interval) => Ok(interval),
                None => Err(HelloError::MissingInterval),
            },
            None => Err(HelloError::MissingInterval),
        },
        None => Err(HelloError::MissingInterval),
    }
}

} // verus!
