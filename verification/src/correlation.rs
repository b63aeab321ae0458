//! Requests that wait for their answer: a wait is registered under a fresh
//! id before the request goes out, and it ends with the answer, with the
//! caller's timeout, or with the failure to send.

use vstd::prelude::*;
use vstd::string::*;
use vstd::utf8::encode_utf8;
use crate::outbound::encode_route_request;
use crate::mesh::RouteHop;
use crate::mesh::RouteHopView;
use crate::outbound::destination_for;
use crate::outbound::route_request_bytes;
use crate::outbound::destination_of;
use crate::outbound::DataRequest;
use crate::outbound::DataRequestView;
use crate::outbound::RawPacket;
use crate::outbound::RawPacketView;
use crate::outbound::PRIORITY_RELIABLE;
use crate::outbound::TRACEROUTE_HOP_LIMIT;
use crate::outbound::TRACEROUTE_PORT;
use crate::platform::fresh_request_id;
use crate::platform::unix_now;
use crate::registry::pending_handle;
use crate::registry::registered;
use crate::registry::released;
use crate::registry::CorrelationRegistry;
use crate::registry::WaitEnd;
use crate::views::seq_view;
use crate::wire::PortKind;

verus! {

/// The seconds that a route discovery waits for its answer where the caller
/// names no other time.
pub const TRACEROUTE_TIMEOUT_SECS: u64 = 10;

/// The data request of a text message that asks for an acknowledgement and
/// carries `packet_id` for the answer to echo.
pub open spec fn text_with_ack(
    text: Seq<char>,
    destination: u32,
    channel: u8,
    packet_id: u32,
) -> DataRequestView {
    DataRequestView {
        payload: encode_utf8(text),
        port: PortKind::TextMessage,
        destination: destination_of(destination),
        channel: channel as u32,
        want_ack: true,
        want_response: false,
        echo_response: false,
        reply_id: Some(packet_id),
        emoji: None,
    }
}

/// The route discovery packet for `destination` under `request_id`.
pub open spec fn traceroute_packet(destination: u32, request_id: u32) -> RawPacketView {
    RawPacketView {
        to: destination,
        id: request_id,
        hop_limit: TRACEROUTE_HOP_LIMIT,
        hop_start: TRACEROUTE_HOP_LIMIT,
        want_ack: false,
        priority: PRIORITY_RELIABLE,
        portnum: TRACEROUTE_PORT,
        payload: route_request_bytes(),
        want_response: true,
        request_id,
        bitfield: Some(0u32),
    }
}

/// A pending wait: the id that its request carries, the time at which it
/// was registered, and the slot through which the waiting caller is told
/// the outcome. It lives from the moment before its request goes out until
/// the wait is resolved or its time runs out.
#[derive(Debug)]
pub struct CorrelationEntry<S> {
    pub id: u32,
    /// The time of registration, in seconds since the Unix epoch.
    pub created_at: u64,
    pub completion_slot: S,
}

/// A text message on its way out, with the wait for its acknowledgement
/// registered.
#[derive(Debug)]
pub struct AckRequest<S> {
    /// The id under which the wait is pending.
    pub packet_id: u32,
    /// The time at which the wait was registered.
    pub created_at: u64,
    /// What to send.
    pub data: DataRequest,
    /// The wait that was pending under the same id, if the id collided.
    pub displaced: Option<CorrelationEntry<S>>,
}

/// A route discovery on its way out, with the wait for its answer
/// registered.
#[derive(Debug)]
pub struct RouteRequest<S> {
    /// The id under which the wait is pending.
    pub request_id: u32,
    /// The time at which the wait was registered.
    pub created_at: u64,
    /// What to send.
    pub packet: RawPacket,
    /// The wait that was pending under the same id, if the id collided.
    pub displaced: Option<CorrelationEntry<S>>,
}

/// The entry of a wait under `id`, registered at the time `created_at`.
pub open spec fn entry_of<S>(id: u32, created_at: u64, slot: S) -> CorrelationEntry<S> {
    CorrelationEntry { id, created_at, completion_slot: slot }
}

/// Registers the wait for an acknowledgement under `packet_id`, as of the
/// time `created_at`, and builds the text message to send.
pub fn send_text_with_ack_as<S>(
    acks: &mut CorrelationRegistry<CorrelationEntry<S>>,
    slot: S,
    packet_id: u32,
    created_at: u64,
    text: &str,
    destination: u32,
    channel: u8,
) -> (r: AckRequest<S>)
    ensures
        final(acks)@ == registered(old(acks)@, packet_id, entry_of(packet_id, created_at, slot)),
        r.packet_id == packet_id,
        r.created_at == created_at,
        r.data@ == text_with_ack(text@, destination, channel, packet_id),
        r.displaced == pending_handle(old(acks)@, packet_id),
{
    let entry = CorrelationEntry { id: packet_id, created_at, completion_slot: slot };
    let displaced = acks.register(packet_id, entry);
    let data = DataRequest {
        payload: text.as_bytes_vec(),
        port: PortKind::TextMessage,
        destination: destination_for(destination),
        channel: channel as u32,
        want_ack: true,
        want_response: false,
        echo_response: false,
        reply_id: Some(packet_id),
        emoji: None,
    };
    AckRequest { packet_id, created_at, data, displaced }
}

/// Registers the wait for an acknowledgement under a fresh id and builds the
/// text message to send. The id is whatever the generator gives, and the
/// time of registration whatever the clock reads: the wait is registered
/// before anything is sent, so that no answer can come too early. Should
/// the generator give the id zero, which stands for no request, the wait
/// can only end by its timeout.
pub fn send_text_with_ack<S>(
    acks: &mut CorrelationRegistry<CorrelationEntry<S>>,
    slot: S,
    text: &str,
    destination: u32,
    channel: u8,
) -> (r: AckRequest<S>)
    ensures
        final(acks)@ == registered(
            old(acks)@,
            r.packet_id,
            entry_of(r.packet_id, r.created_at, slot),
        ),
        r.data@ == text_with_ack(text@, destination, channel, r.packet_id),
        r.displaced == pending_handle(old(acks)@, r.packet_id),
{
    let packet_id = fresh_request_id();
    let created_at = unix_now();
    send_text_with_ack_as(acks, slot, packet_id, created_at, text, destination, channel)
}

/// Ends the wait for an acknowledgement. The message counts as confirmed
/// only where the ingestion delivered success; a timeout is no error, it
/// reads as not confirmed. Where the wait timed out or the request was never
/// sent, the entry is taken out if it is still there.
pub fn finish_text_with_ack<S>(
    acks: &mut CorrelationRegistry<CorrelationEntry<S>>,
    packet_id: u32,
    end: WaitEnd<bool>,
) -> (confirmed: bool)
    ensures
        confirmed == (end == WaitEnd::Resolved(true)),
        final(acks)@ == if end.leaves_entry() {
            released(old(acks)@, packet_id)
        } else {
            old(acks)@
        },
{
    if end.leaves_entry() {
        let _ = acks.remove(packet_id);
    }
    match end {
        WaitEnd::Resolved(confirmed) => confirmed,
        _ => false,
    }
}

/// Registers the wait for a route under `request_id`, as of the time
/// `created_at`, and builds the route discovery packet to send.
pub fn send_traceroute_as<S>(
    routes: &mut CorrelationRegistry<CorrelationEntry<S>>,
    slot: S,
    request_id: u32,
    created_at: u64,
    destination: u32,
) -> (r: RouteRequest<S>)
    ensures
        final(routes)@ == registered(
            old(routes)@,
            request_id,
            entry_of(request_id, created_at, slot),
        ),
        r.request_id == request_id,
        r.created_at == created_at,
        r.packet@ == traceroute_packet(destination, request_id),
        r.displaced == pending_handle(old(routes)@, request_id),
{
    let entry = CorrelationEntry { id: request_id, created_at, completion_slot: slot };
    let displaced = routes.register(request_id, entry);
    let packet = RawPacket {
        to: destination,
        id: request_id,
        hop_limit: TRACEROUTE_HOP_LIMIT,
        hop_start: TRACEROUTE_HOP_LIMIT,
        want_ack: false,
        priority: PRIORITY_RELIABLE,
        portnum: TRACEROUTE_PORT,
        payload: encode_route_request(),
        want_response: true,
        request_id,
        bitfield: Some(0),
    };
    RouteRequest { request_id, created_at, packet, displaced }
}

/// Registers the wait for a route under a fresh id and builds the route
/// discovery packet to send.
pub fn send_traceroute<S>(
    routes: &mut CorrelationRegistry<CorrelationEntry<S>>,
    slot: S,
    destination: u32,
) -> (r: RouteRequest<S>)
    ensures
        final(routes)@ == registered(
            old(routes)@,
            r.request_id,
            entry_of(r.request_id, r.created_at, slot),
        ),
        r.packet@ == traceroute_packet(destination, r.request_id),
        r.displaced == pending_handle(old(routes)@, r.request_id),
{
    let request_id = fresh_request_id();
    let created_at = unix_now();
    send_traceroute_as(routes, slot, request_id, created_at, destination)
}

/// The hops that a route wait ends with: those that the ingestion delivered,
/// and none in every other case.
pub open spec fn route_outcome(end: WaitEnd<Vec<RouteHop>>) -> Seq<RouteHopView> {
    match end {
        WaitEnd::Resolved(hops) => seq_view(hops@),
        _ => Seq::empty(),
    }
}

/// Ends the wait for a route. A timeout is no error: it reads as a route
/// without hops. Where the wait timed out or the request was never sent, the
/// entry is taken out if it is still there.
pub fn finish_traceroute<S>(
    routes: &mut CorrelationRegistry<CorrelationEntry<S>>,
    request_id: u32,
    end: WaitEnd<Vec<RouteHop>>,
) -> (hops: Vec<RouteHop>)
    ensures
        seq_view(hops@) == route_outcome(end),
        final(routes)@ == if end.leaves_entry() {
            released(old(routes)@, request_id)
        } else {
            old(routes)@
        },
{
    if end.leaves_entry() {
        let _ = routes.remove(request_id);
    }
    match end {
        WaitEnd::Resolved(hops) => hops,
        _ => {
            let hops: Vec<RouteHop> = Vec::new();
            assert(seq_view(hops@) =~= Seq::<RouteHopView>::empty());
            hops
        },
    }
}

/// A wait under an id that was free, for which no answer ever arrives, ends
/// with the negative outcome and leaves the registry exactly as it was
/// before the request, in content and in size.
pub proof fn lemma_unanswered_wait_leaves_no_trace<H>(pending: Map<u32, H>, id: u32, handle: H)
    requires
        pending.dom().finite(),
        !pending.contains_key(id),
    ensures
        released(registered(pending, id, handle), id) == pending,
        released(registered(pending, id, handle), id).len() == pending.len(),
{
    assert(released(registered(pending, id, handle), id) =~= pending);
}

} // verus!
