//! Mesh packets: what the data of a packet says, what it does to the device
//! state, and which pending waits it resolves.

use vstd::prelude::*;
use vstd::string::*;
use crate::config_cache::apply_config_response;
use crate::config_cache::decode_config_response;
use crate::config_cache::with_config;
use crate::envelope::MeshPacket;
use crate::envelope::MeshPacketView;
use crate::envelope::PacketBody;
use crate::envelope::PacketBodyView;
use crate::envelope::PacketHeader;
use crate::mesh::RouteHop;
use crate::mesh::RouteHopView;
use crate::platform::lossy_text;
use crate::platform::rfc3339_utc;
use crate::platform::text_from_bytes;
use crate::platform::timestamp_text;
use crate::platform::unix_now;
use crate::records::EnvironmentMetrics;
use crate::records::NodeInfoView;
use crate::records::Position;
use crate::records::PositionView;
use crate::records::TelemetryData;
use crate::records::TextMessage;
use crate::records::TextMessageView;
use crate::registry::pending_handle;
use crate::registry::registered;
use crate::registry::released;
use crate::registry::CorrelationRegistry;
use crate::views::opt_view;
use crate::views::seq_view;
use crate::state::DeviceState;
use crate::state::DeviceStateView;
use crate::text::hex8;
use crate::text::node_id_string;
use crate::text::push_hex8;
use crate::wire::decode_air_quality;
use crate::wire::decode_climate;
use crate::wire::decode_device_metrics;
use crate::wire::decode_light;
use crate::wire::decode_position;
use crate::wire::decode_routing;
use crate::wire::decode_telemetry_time;
use crate::wire::decode_wind;
use crate::wire::decoded_config_response;
use crate::wire::decoded_position;
use crate::wire::decoded_routing;
use crate::wire::decoded_telemetry;
use crate::wire::port_kind;
use crate::wire::port_kind_of;
use crate::wire::ConfigResponse;
use crate::wire::ConfigResponseView;
use crate::wire::PortKind;
use crate::wire::PositionFix;
use crate::wire::RoutingNote;
use crate::wire::RoutingNoteView;
use crate::wire::TelemetryBody;
use crate::wire::TelemetryFrame;

verus! {

/// What the data of a packet says, by the application it belongs to.
#[derive(Debug)]
pub enum AppPayload {
    Text(String),
    /// A position; `None` where the payload could not be decoded.
    Position(Option<PositionFix>),
    /// A telemetry sample; `None` where the payload could not be decoded.
    Telemetry(Option<TelemetryFrame>),
    Config(ConfigResponse),
    Routing(RoutingNote),
    /// Data of an application that the ingestion does not read.
    Other,
}

pub enum AppPayloadView {
    Text(Seq<char>),
    Position(Option<PositionFix>),
    Telemetry(Option<TelemetryFrame>),
    Config(ConfigResponseView),
    Routing(RoutingNoteView),
    Other,
}

impl View for AppPayload {
    type V = AppPayloadView;

    open spec fn view(&self) -> AppPayloadView {
        match self {
            AppPayload::Text(t) => AppPayloadView::Text(t@),
            AppPayload::Position(p) => AppPayloadView::Position(*p),
            AppPayload::Telemetry(t) => AppPayloadView::Telemetry(*t),
            AppPayload::Config(c) => AppPayloadView::Config(c@),
            AppPayload::Routing(r) => AppPayloadView::Routing(r@),
            AppPayload::Other => AppPayloadView::Other,
        }
    }
}

/// What the codec makes of the payload of a data message on a given port.
pub open spec fn app_payload_of(portnum: i32, payload: Seq<u8>) -> AppPayloadView {
    match port_kind_of(portnum) {
        PortKind::TextMessage => AppPayloadView::Text(lossy_text(payload)),
        PortKind::Position => AppPayloadView::Position(decoded_position(payload)),
        PortKind::Telemetry => AppPayloadView::Telemetry(decoded_telemetry(payload)),
        PortKind::Admin => AppPayloadView::Config(decoded_config_response(payload)),
        PortKind::Routing => AppPayloadView::Routing(decoded_routing(payload)),
        PortKind::Other => AppPayloadView::Other,
    }
}

/// Decodes a telemetry payload.
pub fn decode_telemetry(payload: &Vec<u8>) -> (r: Option<TelemetryFrame>)
    ensures
        r == decoded_telemetry(payload@),
{
    let time = match decode_telemetry_time(payload) {
        Some(time) => time,
        None => {
            return None;
        },
    };
    if let Some(metrics) = decode_device_metrics(payload) {
        return Some(TelemetryFrame { time, body: TelemetryBody::Device(metrics) });
    }
    if let Some(metrics) = decode_air_quality(payload) {
        return Some(TelemetryFrame { time, body: TelemetryBody::AirQuality(metrics) });
    }
    let climate = decode_climate(payload);
    let light = decode_light(payload);
    let wind = decode_wind(payload);
    match (climate, light, wind) {
        (Some(c), Some(l), Some(w)) => {
            let metrics = EnvironmentMetrics {
                temperature: c.temperature,
                relative_humidity: c.relative_humidity,
                barometric_pressure: c.barometric_pressure,
                gas_resistance: c.gas_resistance,
                iaq: c.iaq,
                distance: l.distance,
                lux: l.lux,
                white_lux: l.white_lux,
                ir_lux: l.ir_lux,
                uv_lux: l.uv_lux,
                wind_direction: w.wind_direction,
                wind_speed: w.wind_speed,
                weight: w.weight,
            };
            Some(TelemetryFrame { time, body: TelemetryBody::Environment(metrics) })
        },
        _ => Some(TelemetryFrame { time, body: TelemetryBody::Unread }),
    }
}

/// Decodes the payload of a data message by its port.
pub fn decode_payload(portnum: i32, payload: &Vec<u8>) -> (r: AppPayload)
    ensures
        r@ == app_payload_of(portnum, payload@),
{
    match port_kind(portnum) {
        PortKind::TextMessage => AppPayload::Text(text_from_bytes(payload)),
        PortKind::Position => AppPayload::Position(decode_position(payload)),
        PortKind::Telemetry => AppPayload::Telemetry(decode_telemetry(payload)),
        PortKind::Admin => AppPayload::Config(decode_config_response(payload)),
        PortKind::Routing => AppPayload::Routing(decode_routing(payload)),
        PortKind::Other => AppPayload::Other,
    }
}

/// The message record of a text packet received at the time `now`. A
/// received message starts out unacknowledged.
pub open spec fn text_record(header: PacketHeader, text: Seq<char>, now: u64) -> TextMessageView {
    TextMessageView {
        from: hex8(header.from),
        from_node: header.from,
        to: hex8(header.to),
        to_node: header.to,
        channel: header.channel,
        text,
        time: now,
        snr: Some(header.rx_snr),
        rssi: Some(header.rx_rssi),
        acknowledged: false,
    }
}

/// The position record of a fix of node `from` received at the time `now`;
/// none where the fix lacks its latitude or its longitude. The receipt time
/// is the client's, whatever time the fix itself carries.
pub open spec fn position_record(from: u32, fix: PositionFix, now: u64) -> Option<PositionView> {
    if fix.latitude_i is Some && fix.longitude_i is Some {
        Some(
            PositionView {
                node_id: hex8(from),
                node_num: from,
                latitude_i: fix.latitude_i->0,
                longitude_i: fix.longitude_i->0,
                altitude: fix.altitude,
                time: if fix.time > 0 {
                    Some(rfc3339_utc(fix.time))
                } else {
                    None
                },
                last_updated: now,
            },
        )
    } else {
        None
    }
}

/// The telemetry record of a sample of node `from`: the metrics of the
/// sample's one kind, and none of the others.
pub open spec fn telemetry_record(from: u32, frame: TelemetryFrame) -> TelemetryData {
    TelemetryData {
        node_num: from,
        time: frame.time as u64,
        device_metrics: match frame.body {
            TelemetryBody::Device(m) => Some(m),
            _ => None,
        },
        environment_metrics: match frame.body {
            TelemetryBody::Environment(m) => Some(m),
            _ => None,
        },
        air_quality_metrics: match frame.body {
            TelemetryBody::AirQuality(m) => Some(m),
            _ => None,
        },
    }
}

/// The device state after the data of a packet has been taken in.
pub open spec fn state_after_payload(
    s: DeviceStateView,
    header: PacketHeader,
    payload: AppPayloadView,
    now: u64,
) -> DeviceStateView {
    match payload {
        AppPayloadView::Text(text) => s.with_message(text_record(header, text, now)),
        AppPayloadView::Position(Some(fix)) => match position_record(header.from, fix, now) {
            Some(record) => s.with_position(header.from, record),
            None => s,
        },
        AppPayloadView::Telemetry(Some(frame)) => s.with_telemetry(
            header.from,
            telemetry_record(header.from, frame),
        ),
        AppPayloadView::Config(response) => with_config(s, response),
        _ => s,
    }
}

/// The route that a packet reports to the route wait pending under its
/// request id: the discovered route of a reply, and no route at all where
/// the packet reports an error. A packet that answers no request reports
/// nothing.
pub open spec fn reported_route(request_id: u32, payload: AppPayloadView) -> Option<Seq<u32>> {
    if request_id == 0 {
        None
    } else {
        match payload {
            AppPayloadView::Routing(RoutingNoteView::RouteReply(route)) => Some(route),
            AppPayloadView::Routing(RoutingNoteView::ErrorReason(_)) => Some(Seq::empty()),
            _ => None,
        }
    }
}

/// Whether readable data confirms the delivery of a request: it does
/// whenever it carries the id of a request, whatever application it belongs
/// to. The id zero stands for no request.
pub open spec fn confirms_request(request_id: u32) -> bool {
    request_id != 0
}

/// The name shown for a hop: the long name of the node where it is known.
pub open spec fn hop_name(nodes: Map<u32, NodeInfoView>, num: u32) -> Seq<char> {
    if nodes.contains_key(num) {
        nodes[num].user.long_name
    } else {
        "Unknown ("@ + hex8(num) + ")"@
    }
}

/// The hop at position `i` of a route.
pub open spec fn hop_at(nodes: Map<u32, NodeInfoView>, route: Seq<u32>, i: int) -> RouteHopView {
    RouteHopView {
        node_id: route[i],
        node_name: hop_name(nodes, route[i]),
        hop_number: i as u32,
        snr: None,
        rssi: None,
    }
}

/// The hops of a route, each with the name under which its node is known.
pub open spec fn route_hops(nodes: Map<u32, NodeInfoView>, route: Seq<u32>) -> Seq<RouteHopView> {
    Seq::new(route.len(), |i: int| hop_at(nodes, route, i))
}

/// The outcome owed to a route wait, with the handle to deliver it through.
#[derive(Debug)]
pub struct RouteCompletion<R> {
    pub handle: R,
    pub hops: Vec<RouteHop>,
}

pub struct RouteCompletionView<R> {
    pub handle: R,
    pub hops: Seq<RouteHopView>,
}

impl<R> View for RouteCompletion<R> {
    type V = RouteCompletionView<R>;

    open spec fn view(&self) -> RouteCompletionView<R> {
        RouteCompletionView { handle: self.handle, hops: seq_view(self.hops@) }
    }
}

/// The waits that an envelope resolved. The caller of the ingestion delivers
/// `hops` through the route handle, and success through the ack handle.
#[derive(Debug)]
pub struct Completions<A, R> {
    pub route: Option<RouteCompletion<R>>,
    pub ack: Option<A>,
}

pub struct CompletionsView<A, R> {
    pub route: Option<RouteCompletionView<R>>,
    pub ack: Option<A>,
}

impl<A, R> View for Completions<A, R> {
    type V = CompletionsView<A, R>;

    open spec fn view(&self) -> CompletionsView<A, R> {
        CompletionsView { route: opt_view(self.route), ack: self.ack }
    }
}

impl<A, R> Completions<A, R> {
    /// No wait resolved.
    pub fn none() -> (r: Self)
        ensures
            r@ == (CompletionsView::<A, R> { route: None, ack: None }),
    {
        Completions { route: None, ack: None }
    }
}

/// The pending route waits after the data of a packet has been taken in.
pub open spec fn routes_after_payload<R>(
    routes: Map<u32, R>,
    request_id: u32,
    payload: AppPayloadView,
) -> Map<u32, R> {
    if reported_route(request_id, payload) is Some {
        released(routes, request_id)
    } else {
        routes
    }
}

/// The pending ack waits after the data of a packet has been taken in.
pub open spec fn acks_after_payload<A>(acks: Map<u32, A>, request_id: u32) -> Map<u32, A> {
    if confirms_request(request_id) {
        released(acks, request_id)
    } else {
        acks
    }
}

/// Builds the message record of a text packet.
pub fn build_text_message(header: PacketHeader, text: String, now: u64) -> (r: TextMessage)
    ensures
        r@ == text_record(header, text@, now),
{
    TextMessage {
        from: node_id_string(header.from),
        from_node: header.from,
        to: node_id_string(header.to),
        to_node: header.to,
        channel: header.channel,
        text,
        time: now,
        snr: Some(header.rx_snr),
        rssi: Some(header.rx_rssi),
        acknowledged: false,
    }
}

/// Builds the position record of a fix, where the fix has both coordinates.
pub fn build_position(from: u32, fix: PositionFix, now: u64) -> (r: Option<Position>)
    ensures
        opt_view(r) == position_record(from, fix, now),
{
    match (fix.latitude_i, fix.longitude_i) {
        (Some(latitude_i), Some(longitude_i)) => {
            let time = if fix.time > 0 {
                timestamp_text(fix.time)
            } else {
                None
            };
            Some(
                Position {
                    node_id: node_id_string(from),
                    node_num: from,
                    latitude_i,
                    longitude_i,
                    altitude: fix.altitude,
                    time,
                    last_updated: now,
                },
            )
        },
        _ => None,
    }
}

/// Builds the telemetry record of a sample.
pub fn build_telemetry(from: u32, frame: TelemetryFrame) -> (r: TelemetryData)
    ensures
        r == telemetry_record(from, frame),
{
    let mut record = TelemetryData {
        node_num: from,
        time: frame.time as u64,
        device_metrics: None,
        environment_metrics: None,
        air_quality_metrics: None,
    };
    match frame.body {
        TelemetryBody::Device(m) => {
            record.device_metrics = Some(m);
        },
        TelemetryBody::Environment(m) => {
            record.environment_metrics = Some(m);
        },
        TelemetryBody::AirQuality(m) => {
            record.air_quality_metrics = Some(m);
        },
        TelemetryBody::Unread => {},
    }
    record
}

/// Names the hops of a route from what the state knows of each node.
pub fn build_route_hops(state: &DeviceState, route: &Vec<u32>) -> (hops: Vec<RouteHop>)
    ensures
        seq_view(hops@) == route_hops(state@.nodes, route@),
{
    let mut hops: Vec<RouteHop> = Vec::new();
    let mut i: usize = 0;
    while i < route.len()
        invariant
            i <= route.len(),
            hops.len() == i,
            forall|j: int| 0 <= j < i ==> (#[trigger] hops[j])@ == hop_at(state@.nodes, route@, j),
        decreases route.len() - i,
    {
        let num = route[i];
        let node_name = match state.get_node_by_num(num) {
            Some(node) => node.user.long_name.clone(),
            None => {
                let mut name = String::from_str("Unknown (");
                push_hex8(&mut name, num);
                name.append(")");
                name
            },
        };
        hops.push(
            RouteHop {
                node_id: num,
                node_name,
                hop_number: #[verifier::truncate]
                (i as u32),
                snr: None,
                rssi: None,
            },
        );
        i = i + 1;
    }
    assert(seq_view(hops@) =~= route_hops(state@.nodes, route@));
    hops
}

/// The route wait that the data of a packet resolves, with its outcome.
pub open spec fn route_completion<R>(
    nodes: Map<u32, NodeInfoView>,
    routes: Map<u32, R>,
    request_id: u32,
    payload: AppPayloadView,
) -> Option<RouteCompletionView<R>> {
    match (reported_route(request_id, payload), pending_handle(routes, request_id)) {
        (Some(route), Some(handle)) => Some(
            RouteCompletionView { handle, hops: route_hops(nodes, route) },
        ),
        _ => None,
    }
}

/// The ack wait that the data of a packet resolves. Its outcome is success.
pub open spec fn ack_completion<A>(acks: Map<u32, A>, request_id: u32) -> Option<A> {
    if confirms_request(request_id) {
        pending_handle(acks, request_id)
    } else {
        None
    }
}

/// The waits that the data of a packet resolves.
pub open spec fn completions_of_payload<A, R>(
    nodes: Map<u32, NodeInfoView>,
    acks: Map<u32, A>,
    routes: Map<u32, R>,
    request_id: u32,
    payload: AppPayloadView,
) -> CompletionsView<A, R> {
    CompletionsView {
        route: route_completion(nodes, routes, request_id, payload),
        ack: ack_completion(acks, request_id),
    }
}

/// Takes out of the route registry the wait that the data of a packet
/// resolves, and names the hops of the route from what the state knows. A
/// second packet with the same request id finds the wait gone.
pub fn resolve_route<R>(
    routes: &mut CorrelationRegistry<R>,
    state: &DeviceState,
    request_id: u32,
    payload: &AppPayload,
) -> (r: Option<RouteCompletion<R>>)
    ensures
        final(routes)@ == routes_after_payload(old(routes)@, request_id, payload@),
        opt_view(r) == route_completion(state@.nodes, old(routes)@, request_id, payload@),
{
    if request_id == 0 {
        return None;
    }
    match payload {
        AppPayload::Routing(RoutingNote::RouteReply(route)) => {
            match routes.remove(request_id) {
                Some(handle) => {
                    let hops = build_route_hops(state, route);
                    Some(RouteCompletion { handle, hops })
                },
                None => None,
            }
        },
        AppPayload::Routing(RoutingNote::ErrorReason(_)) => {
            match routes.remove(request_id) {
                Some(handle) => {
                    let hops: Vec<RouteHop> = Vec::new();
                    assert(seq_view(hops@) =~= route_hops(state@.nodes, Seq::<u32>::empty()));
                    Some(RouteCompletion { handle, hops })
                },
                None => None,
            }
        },
        _ => None,
    }
}

/// Takes out of the ack registry the wait that the data of a packet
/// resolves: the wait under the id of the request that the data carries,
/// whatever the data is. A second packet with the same request id finds the
/// wait gone.
pub fn resolve_ack<A>(acks: &mut CorrelationRegistry<A>, request_id: u32) -> (r: Option<A>)
    ensures
        final(acks)@ == acks_after_payload(old(acks)@, request_id),
        r == ack_completion(old(acks)@, request_id),
{
    if request_id != 0 {
        acks.remove(request_id)
    } else {
        None
    }
}

/// Stores in the state what the data of a packet says, as received at the
/// time `now`.
pub fn store_payload(state: &mut DeviceState, header: PacketHeader, payload: AppPayload, now: u64)
    ensures
        final(state)@ == state_after_payload(old(state)@, header, payload@, now),
{
    match payload {
        AppPayload::Text(text) => {
            state.add_message(build_text_message(header, text, now));
        },
        AppPayload::Position(Some(fix)) => {
            if let Some(record) = build_position(header.from, fix, now) {
                state.update_position(header.from, record);
            }
        },
        AppPayload::Telemetry(Some(frame)) => {
            state.update_telemetry(header.from, build_telemetry(header.from, frame));
        },
        AppPayload::Config(response) => {
            apply_config_response(state, response);
        },
        _ => {},
    }
}

/// Takes the data of a packet in: stores what it says in the state, and
/// takes out of the registries the waits that it resolves. Each wait is
/// handed back with its outcome.
pub fn apply_payload<A, R>(
    header: PacketHeader,
    request_id: u32,
    payload: AppPayload,
    now: u64,
    state: &mut DeviceState,
    acks: &mut CorrelationRegistry<A>,
    routes: &mut CorrelationRegistry<R>,
) -> (done: Completions<A, R>)
    ensures
        final(state)@ == state_after_payload(old(state)@, header, payload@, now),
        final(routes)@ == routes_after_payload(old(routes)@, request_id, payload@),
        final(acks)@ == acks_after_payload(old(acks)@, request_id),
        done@ == completions_of_payload(
            old(state)@.nodes,
            old(acks)@,
            old(routes)@,
            request_id,
            payload@,
        ),
{
    let route = resolve_route(routes, state, request_id, &payload);
    let ack = resolve_ack(acks, request_id);
    store_payload(state, header, payload, now);
    Completions { route, ack }
}

/// The request id and the decoded data of a packet; none where the packet
/// carries no data or data that could not be decrypted.
pub open spec fn packet_data(packet: MeshPacketView) -> Option<(u32, AppPayloadView)> {
    match packet.body {
        PacketBodyView::Decoded(data) => Some(
            (data.request_id, app_payload_of(data.portnum, data.payload)),
        ),
        _ => None,
    }
}

/// The device state after a packet received at the time `now`.
pub open spec fn state_after_packet(
    s: DeviceStateView,
    packet: MeshPacketView,
    now: u64,
) -> DeviceStateView {
    match packet_data(packet) {
        Some((_, payload)) => state_after_payload(s, packet.header, payload, now),
        None => s,
    }
}

/// The pending route waits after a packet.
pub open spec fn routes_after_packet<R>(routes: Map<u32, R>, packet: MeshPacketView) -> Map<
    u32,
    R,
> {
    match packet_data(packet) {
        Some((request_id, payload)) => routes_after_payload(routes, request_id, payload),
        None => routes,
    }
}

/// The pending ack waits after a packet.
pub open spec fn acks_after_packet<A>(acks: Map<u32, A>, packet: MeshPacketView) -> Map<u32, A> {
    match packet_data(packet) {
        Some((request_id, _)) => acks_after_payload(acks, request_id),
        None => acks,
    }
}

/// The waits that a packet resolves.
pub open spec fn completions_of_packet<A, R>(
    nodes: Map<u32, NodeInfoView>,
    acks: Map<u32, A>,
    routes: Map<u32, R>,
    packet: MeshPacketView,
) -> CompletionsView<A, R> {
    match packet_data(packet) {
        Some((request_id, payload)) => completions_of_payload(
            nodes,
            acks,
            routes,
            request_id,
            payload,
        ),
        None => CompletionsView { route: None, ack: None },
    }
}

/// Takes a mesh packet in, as received at the time `now`. A packet without
/// data, or with data that could not be decrypted, changes nothing.
pub fn apply_mesh_packet<A, R>(
    packet: MeshPacket,
    now: u64,
    state: &mut DeviceState,
    acks: &mut CorrelationRegistry<A>,
    routes: &mut CorrelationRegistry<R>,
) -> (done: Completions<A, R>)
    ensures
        final(state)@ == state_after_packet(old(state)@, packet@, now),
        final(routes)@ == routes_after_packet(old(routes)@, packet@),
        final(acks)@ == acks_after_packet(old(acks)@, packet@),
        done@ == completions_of_packet(old(state)@.nodes, old(acks)@, old(routes)@, packet@),
{
    match packet.body {
        PacketBody::Decoded(data) => {
            let payload = decode_payload(data.portnum, &data.payload);
            apply_payload(packet.header, data.request_id, payload, now, state, acks, routes)
        },
        _ => Completions::none(),
    }
}

/// Takes a mesh packet in, as received at the moment of the call. The
/// receipt time that is stored with messages and positions is the clock's,
/// whatever it reads.
pub fn process_mesh_packet<A, R>(
    packet: MeshPacket,
    state: &mut DeviceState,
    acks: &mut CorrelationRegistry<A>,
    routes: &mut CorrelationRegistry<R>,
) -> (done: Completions<A, R>)
    ensures
        exists|now: u64| final(state)@ == state_after_packet(old(state)@, packet@, now),
        final(routes)@ == routes_after_packet(old(routes)@, packet@),
        final(acks)@ == acks_after_packet(old(acks)@, packet@),
        done@ == completions_of_packet(old(state)@.nodes, old(acks)@, old(routes)@, packet@),
{
    let now = unix_now();
    apply_mesh_packet(packet, now, state, acks, routes)
}

/// A reply that arrives a second time finds its waits gone: it resolves
/// nothing, and it leaves both registries as the first left them, in content
/// and in size. This holds whatever the device state has become in between.
pub proof fn lemma_duplicate_reply_resolves_nothing<A, R>(
    nodes: Map<u32, NodeInfoView>,
    acks: Map<u32, A>,
    routes: Map<u32, R>,
    packet: MeshPacketView,
)
    ensures
        completions_of_packet(
            nodes,
            acks_after_packet(acks, packet),
            routes_after_packet(routes, packet),
            packet,
        ) == (CompletionsView::<A, R> { route: None, ack: None }),
        acks_after_packet(acks_after_packet(acks, packet), packet) == acks_after_packet(
            acks,
            packet,
        ),
        routes_after_packet(routes_after_packet(routes, packet), packet) == routes_after_packet(
            routes,
            packet,
        ),
{
    match packet_data(packet) {
        Some((request_id, payload)) => {
            assert(released(released(acks, request_id), request_id) =~= released(
                acks,
                request_id,
            ));
            assert(released(released(routes, request_id), request_id) =~= released(
                routes,
                request_id,
            ));
        },
        None => {},
    }
}

/// The id of the request that a packet answers; zero where it answers none.
pub open spec fn answered_request(packet: MeshPacketView) -> u32 {
    match packet.body {
        PacketBodyView::Decoded(data) => data.request_id,
        _ => 0,
    }
}

/// A wait is resolved at most once and by the packet that answers it: the
/// handle that a packet hands back is the one that was pending under the
/// packet's request id, and afterwards nothing is pending under that id.
pub proof fn lemma_resolved_wait_leaves_registry<A, R>(
    nodes: Map<u32, NodeInfoView>,
    acks: Map<u32, A>,
    routes: Map<u32, R>,
    packet: MeshPacketView,
)
    ensures
        completions_of_packet(nodes, acks, routes, packet).ack matches Some(handle) ==> {
            let id = answered_request(packet);
            &&& acks.contains_key(id)
            &&& acks[id] == handle
            &&& !acks_after_packet(acks, packet).contains_key(id)
        },
        completions_of_packet(nodes, acks, routes, packet).route matches Some(answer) ==> {
            let id = answered_request(packet);
            &&& routes.contains_key(id)
            &&& routes[id] == answer.handle
            &&& !routes_after_packet(routes, packet).contains_key(id)
        },
{
}

/// A wait that is registered under an id that was free is resolved by the
/// first packet that confirms that id: the packet hands the registered
/// handle back, and the registry is again what it was before the wait.
pub proof fn lemma_reply_resolves_registered_ack<A, R>(
    nodes: Map<u32, NodeInfoView>,
    acks: Map<u32, A>,
    routes: Map<u32, R>,
    packet: MeshPacketView,
    handle: A,
)
    requires
        packet_data(packet) matches Some((id, _)) && confirms_request(id),
        !acks.contains_key(answered_request(packet)),
    ensures
        completions_of_packet(
            nodes,
            registered(acks, answered_request(packet), handle),
            routes,
            packet,
        ).ack == Some(handle),
        acks_after_packet(registered(acks, answered_request(packet), handle), packet) == acks,
{
    let id = answered_request(packet);
    assert(released(registered(acks, id, handle), id) =~= acks);
}

/// A route wait that is registered under an id that was free is resolved by
/// the first packet that reports a route for that id, with the hops named
/// from the nodes that are known then.
pub proof fn lemma_reply_resolves_registered_route<A, R>(
    nodes: Map<u32, NodeInfoView>,
    acks: Map<u32, A>,
    routes: Map<u32, R>,
    packet: MeshPacketView,
    handle: R,
)
    requires
        packet_data(packet) matches Some((id, payload)) && reported_route(id, payload) is Some,
        !routes.contains_key(answered_request(packet)),
    ensures
        completions_of_packet(
            nodes,
            acks,
            registered(routes, answered_request(packet), handle),
            packet,
        ).route matches Some(answer) && answer.handle == handle,
        routes_after_packet(registered(routes, answered_request(packet), handle), packet)
            == routes,
{
    let id = answered_request(packet);
    assert(released(registered(routes, id, handle), id) =~= routes);
}

} // verus!
