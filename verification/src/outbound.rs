//! The outbound envelopes, described as plain values: what is to be sent,
//! to whom, and with which flags.

use vstd::prelude::*;
use crate::wire::PortKind;

verus! {

/// The address that stands for every node.
pub const BROADCAST_ADDR: u32 = 0xFFFF_FFFF;

/// The number of the admin application's port.
pub const ADMIN_PORT: i32 = 6;

/// The number of the route discovery application's port.
pub const TRACEROUTE_PORT: i32 = 70;

/// The default priority of a packet.
pub const PRIORITY_DEFAULT: i32 = 64;

/// The priority of a packet that is sent reliably.
pub const PRIORITY_RELIABLE: i32 = 70;

/// The number of hops that a route discovery may take.
pub const TRACEROUTE_HOP_LIMIT: u32 = 7;

/// Whom a packet is for.
#[derive(Clone, Copy, Debug, PartialEq, Eq, Structural)]
pub enum Destination {
    Broadcast,
    Node(u32),
}

/// The destination that a node number stands for: the broadcast address
/// means every node.
pub open spec fn destination_of(node: u32) -> Destination {
    if node == BROADCAST_ADDR {
        Destination::Broadcast
    } else {
        Destination::Node(node)
    }
}

/// The destination of a message that may name a node: without one it goes to
/// every node.
pub open spec fn destination_or_broadcast(node: Option<u32>) -> Destination {
    match node {
        Some(n) => Destination::Node(n),
        None => Destination::Broadcast,
    }
}

/// Application data to send: the transport wraps it in a packet of its own.
#[derive(Debug)]
pub struct DataRequest {
    pub payload: Vec<u8>,
    pub port: PortKind,
    pub destination: Destination,
    pub channel: u32,
    pub want_ack: bool,
    pub want_response: bool,
    pub echo_response: bool,
    pub reply_id: Option<u32>,
    pub emoji: Option<u32>,
}

pub struct DataRequestView {
    pub payload: Seq<u8>,
    pub port: PortKind,
    pub destination: Destination,
    pub channel: u32,
    pub want_ack: bool,
    pub want_response: bool,
    pub echo_response: bool,
    pub reply_id: Option<u32>,
    pub emoji: Option<u32>,
}

impl View for DataRequest {
    type V = DataRequestView;

    open spec fn view(&self) -> DataRequestView {
        DataRequestView {
            payload: self.payload@,
            port: self.port,
            destination: self.destination,
            channel: self.channel,
            want_ack: self.want_ack,
            want_response: self.want_response,
            echo_response: self.echo_response,
            reply_id: self.reply_id,
            emoji: self.emoji,
        }
    }
}

/// A complete mesh packet to send as it is. The fields that are not listed
/// are zero, false or empty.
#[derive(Debug)]
pub struct RawPacket {
    pub to: u32,
    pub id: u32,
    pub hop_limit: u32,
    pub hop_start: u32,
    pub want_ack: bool,
    pub priority: i32,
    pub portnum: i32,
    pub payload: Vec<u8>,
    pub want_response: bool,
    pub request_id: u32,
    pub bitfield: Option<u32>,
}

pub struct RawPacketView {
    pub to: u32,
    pub id: u32,
    pub hop_limit: u32,
    pub hop_start: u32,
    pub want_ack: bool,
    pub priority: i32,
    pub portnum: i32,
    pub payload: Seq<u8>,
    pub want_response: bool,
    pub request_id: u32,
    pub bitfield: Option<u32>,
}

impl View for RawPacket {
    type V = RawPacketView;

    open spec fn view(&self) -> RawPacketView {
        RawPacketView {
            to: self.to,
            id: self.id,
            hop_limit: self.hop_limit,
            hop_start: self.hop_start,
            want_ack: self.want_ack,
            priority: self.priority,
            portnum: self.portnum,
            payload: self.payload@,
            want_response: self.want_response,
            request_id: self.request_id,
            bitfield: self.bitfield,
        }
    }
}

/// The admin packet for the local device that carries `payload`: addressed
/// to the node zero, without id, hops or flags, at default priority.
pub open spec fn admin_packet(payload: Seq<u8>) -> RawPacketView {
    RawPacketView {
        to: 0,
        id: 0,
        hop_limit: 0,
        hop_start: 0,
        want_ack: false,
        priority: PRIORITY_DEFAULT,
        portnum: ADMIN_PORT,
        payload,
        want_response: false,
        request_id: 0,
        bitfield: None,
    }
}

/// Wraps an encoded admin message in a packet for the local device.
pub fn build_admin_packet(payload: Vec<u8>) -> (r: RawPacket)
    ensures
        r@ == admin_packet(payload@),
{
    RawPacket {
        to: 0,
        id: 0,
        hop_limit: 0,
        hop_start: 0,
        want_ack: false,
        priority: PRIORITY_DEFAULT,
        portnum: ADMIN_PORT,
        payload,
        want_response: false,
        request_id: 0,
        bitfield: None,
    }
}

/// Reads a node number as a destination.
pub fn destination_for(node: u32) -> (r: Destination)
    ensures
        r == destination_of(node),
{
    if node == BROADCAST_ADDR {
        Destination::Broadcast
    } else {
        Destination::Node(node)
    }
}

/// The bytes of a route request that names no node yet: the key of the
/// request field of a routing message, and a length of zero.
pub open spec fn route_request_bytes() -> Seq<u8> {
    seq![0x0au8, 0x00u8]
}

/// Writes the route request that a route discovery begins with.
pub fn encode_route_request() -> (r: Vec<u8>)
    ensures
        r@ == route_request_bytes(),
{
    let mut bytes: Vec<u8> = Vec::new();
    bytes.push(0x0a);
    bytes.push(0x00);
    assert(bytes@ =~= route_request_bytes());
    bytes
}

/// Writes a message without any field, which asks its receiver for the
/// value it would carry: no bytes at all.
pub fn encode_blank_message() -> (r: Vec<u8>)
    ensures
        r@ == Seq::<u8>::empty(),
{
    Vec::new()
}

} // verus!
