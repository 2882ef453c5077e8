//! Presentation-facing view models: the row a forwarded packet becomes
//! in the message log, and a subscription entry.

use crate::packet::{packet_id_value, packet_kind_name, kind_name, Packet};
use vstd::prelude::*;

verus! {

/// One row of the message log: the display name of a packet's kind and
/// its packet identifier (0 where the protocol defines none).
#[derive(Clone, Debug)]
pub struct PacketObject {
    pub packet_type: String,
    pub packet_id: i32,
}

impl PacketObject {
    /// The log row for a forwarded packet.
    pub fn new(packet: Packet) -> (r: Self)
        ensures
            r.packet_type@ == packet_kind_name(packet),
            r.packet_id == packet_id_value(packet),
    {
        PacketObject {
            packet_type: String::from_str(kind_name(&packet)),
            packet_id: PacketObject::packet_id_from(&packet),
        }
    }

    /// The packet identifier to display for a packet: the one it
    /// carries, or 0 where its kind defines none.
    pub fn packet_id_from(packet: &Packet) -> (id: i32)
        ensures
            id == packet_id_value(*packet),
    {
        let found: Option<u16> = match packet {
            Packet::Connect => None,
            Packet::ConnAck => None,
            Packet::Publish(publish_id) => *publish_id,
            Packet::PubAck(i) => Some(*i),
            Packet::PubRec(i) => Some(*i),
            Packet::PubRel(i) => Some(*i),
            Packet::PubComp(i) => Some(*i),
            Packet::Subscribe(i) => Some(*i),
            Packet::SubAck(i) => Some(*i),
            Packet::Unsubscribe(i) => Some(*i),
            Packet::UnsubAck(i) => Some(*i),
            Packet::PingRequest => None,
            Packet::PingResponse => None,
            Packet::Disconnect => None,
        };
        if let Some(id) = found {
            id as i32
        } else {
            0
        }
    }
}

/// A subscription entry: topic filter, correlation identifier, and
/// whether the subscription is currently active.
#[derive(Clone, Debug)]
pub struct Subscription {
    pub topic: String,
    pub active: bool,
    pub id: u32,
}

impl Subscription {
    /// An empty, inactive entry.
    pub fn new() -> (r: Self)
        ensures
            r.topic@ == Seq::<char>::empty(),
            !r.active,
            r.id == 0,
    {
        Subscription { topic: String::new(), active: false, id: 0 }
    }
}

impl Default for Subscription {
    /// The default entry is the empty, inactive one.
    fn default() -> (r: Self)
        ensures
            r.topic@ == Seq::<char>::empty(),
            !r.active,
            r.id == 0,
    {
        Subscription::new()
    }
}

} // verus!
