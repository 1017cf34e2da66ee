//! Events: what the client sends and what the server answers.
use vstd::prelude::*;
use vstd::string::StringExecFns;
use crate::packet::{from_be32, PacketReader};
use crate::sso::{PacketError, SsoPacket};
use crate::tlv::TlvError;

verus! {

/// The command that carries an event.
pub trait CECommandMarker {
    fn command(&self) -> &'static str;
}

/// Builds the result of parsing an answer: the main event and, maybe, more
/// events that came with it.
pub struct ClientResult;

impl ClientResult {
    /// A single event.
    pub fn single<E>(event: E) -> (r: (E, Option<Vec<E>>))
        ensures
            r.0 == event,
            r.1 is None,
    {
        (event, None)
    }

    /// An event with the events that came with it.
    pub fn with_extra<E>(event: E, extra: Option<Vec<E>>) -> (r: (E, Option<Vec<E>>))
        ensures
            r.0 == event,
            r.1 == extra,
    {
        (event, extra)
    }
}

/// Errors of building and parsing events.
#[derive(Debug)]
pub enum EventError {
    UnsupportedEvent(String),
    MissingTlv(TlvError),
    PacketParseError(PacketError),
    OtherError(String),
    InternalWarning(String),
    OidbPacketInternalError(i32, String),
}

/// Tells the server which state the client is in, right after login.
#[derive(Debug)]
pub struct InfoSyncEvent;

impl CECommandMarker for InfoSyncEvent {
    fn command(&self) -> (r: &'static str)
        ensures
            r@ == "trpc.msg.register_proxy.RegisterProxy.SsoInfoSync"@,
    {
        "trpc.msg.register_proxy.RegisterProxy.SsoInfoSync"
    }
}

/// Whether `payload` starts with a whole section: a 4-byte length, counting
/// itself, that the payload holds.
pub open spec fn event_section_complete(payload: Seq<u8>) -> bool {
    payload.len() >= 4 && 4 <= from_be32(payload) <= payload.len()
}

/// Whether the payload of `packet` starts with a whole section.
pub fn has_event_section(packet: &SsoPacket) -> (r: bool)
    ensures
        r == event_section_complete(packet.spec_payload()),
{
    let payload = packet.payload();
    if payload.len() < 4 {
        return false;
    }
    let mut reader = PacketReader::new(payload);
    let n = reader.u32();
    4 <= n && n as usize <= reader.remaining() + 4
}

/// The encoded event that an SSO packet carries: the content of the first
/// section of its payload.
pub fn event_payload(packet: &SsoPacket) -> (r: Vec<u8>)
    requires
        event_section_complete(packet.spec_payload()),
    ensures
        r@ == packet.spec_payload().subrange(4, from_be32(packet.spec_payload()) as int),
{
    let mut reader = PacketReader::new(packet.payload());
    let mut section = reader.section();
    section.bytes()
}

/// The error for a packet whose command no event parses.
pub fn unsupported_event(command: &str) -> (r: EventError)
    ensures
        r matches EventError::UnsupportedEvent(c) && c@ == command@,
{
    EventError::UnsupportedEvent(String::from_str(command))
}

} // verus!
