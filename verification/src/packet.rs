//! The protocol's packet model: a closed, exhaustively enumerable set of
//! packet kinds, each carrying a packet identifier where the protocol
//! defines one.

use vstd::prelude::*;

verus! {

/// Delivery guarantee tier for a published message.
#[derive(Clone, Copy, Debug, PartialEq, Eq)]
pub enum QosLevel {
    /// Fire and forget: the message is delivered at most once.
    AtMostOnce,
    /// The message is delivered at least once and acknowledged.
    AtLeastOnce,
    /// The message is delivered exactly once via a two-step handshake.
    ExactlyOnce,
}

/// A decoded inbound protocol message, reduced to its kind and the
/// packet identifier the protocol defines for that kind (absent
/// otherwise).  Treated as an immutable value once produced.
#[derive(Clone, Copy, Debug, PartialEq, Eq)]
pub enum Packet {
    Connect,
    ConnAck,
    Publish(Option<u16>),
    PubAck(u16),
    PubRec(u16),
    PubRel(u16),
    PubComp(u16),
    Subscribe(u16),
    SubAck(u16),
    Unsubscribe(u16),
    UnsubAck(u16),
    PingRequest,
    PingResponse,
    Disconnect,
}

/// The packet identifier carried by a packet, or 0 where the protocol
/// defines none (0 is never a valid identifier, so it is free to stand
/// for "absent").
pub open spec fn packet_id_value(p: Packet) -> int {
    match p {
        Packet::Connect => 0,
        Packet::ConnAck => 0,
        Packet::Publish(id) => match id {
            Some(i) => i as int,
            None => 0,
        },
        Packet::PubAck(i) => i as int,
        Packet::PubRec(i) => i as int,
        Packet::PubRel(i) => i as int,
        Packet::PubComp(i) => i as int,
        Packet::Subscribe(i) => i as int,
        Packet::SubAck(i) => i as int,
        Packet::Unsubscribe(i) => i as int,
        Packet::UnsubAck(i) => i as int,
        Packet::PingRequest => 0,
        Packet::PingResponse => 0,
        Packet::Disconnect => 0,
    }
}

/// The display name of a packet's kind.
pub open spec fn packet_kind_name(p: Packet) -> Seq<char> {
    match p {
        Packet::Connect => "Connect"@,
        Packet::ConnAck => "ConnAck"@,
        Packet::Publish(_) => "Publish"@,
        Packet::PubAck(_) => "PubAck"@,
        Packet::PubRec(_) => "PubRec"@,
        Packet::PubRel(_) => "PubRel"@,
        Packet::PubComp(_) => "PubComp"@,
        Packet::Subscribe(_) => "Subscribe"@,
        Packet::SubAck(_) => "SubAck"@,
        Packet::Unsubscribe(_) => "Unsubscribe"@,
        Packet::UnsubAck(_) => "UnsubAck"@,
        Packet::PingRequest => "PingRequest"@,
        Packet::PingResponse => "PingResponse"@,
        Packet::Disconnect => "Disconnect"@,
    }
}

/// The display name of a packet's kind, as a string slice.
pub fn kind_name(p: &Packet) -> (r: &'static str)
    ensures
        r@ == packet_kind_name(*p),
{
    match p {
        Packet::Connect => "Connect",
        Packet::ConnAck => "ConnAck",
        Packet::Publish(_) => "Publish",
        Packet::PubAck(_) => "PubAck",
        Packet::PubRec(_) => "PubRec",
        Packet::PubRel(_) => "PubRel",
        Packet::PubComp(_) => "PubComp",
        Packet::Subscribe(_) => "Subscribe",
        Packet::SubAck(_) => "SubAck",
        Packet::Unsubscribe(_) => "Unsubscribe",
        Packet::UnsubAck(_) => "UnsubAck",
        Packet::PingRequest => "PingRequest",
        Packet::PingResponse => "PingResponse",
        Packet::Disconnect => "Disconnect",
    }
}

} // verus!
