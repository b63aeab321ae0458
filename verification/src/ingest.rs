//! The packet ingestion: what each inbound envelope does to the device
//! state and to the pending waits.

use vstd::prelude::*;
use vstd::string::*;
use crate::envelope::ChannelUpdate;
use crate::envelope::Envelope;
use crate::envelope::EnvelopeView;
use crate::envelope::ChannelUpdateView;
use crate::envelope::MyInfoUpdate;
use crate::envelope::MyInfoUpdateView;
use crate::envelope::NodeUpdate;
use crate::envelope::NodeUpdateView;
use crate::envelope::UserUpdate;
use crate::envelope::UserUpdateView;
use crate::names::channel_role_name;
use crate::names::channel_role_text;
use crate::names::hardware_model_name;
use crate::names::hardware_model_text;
use crate::envelope::PacketBody;
use crate::envelope::PacketHeader;
use crate::packet::ack_completion;
use crate::packet::acks_after_packet;
use crate::packet::acks_after_payload;
use crate::packet::decode_payload;
use crate::packet::packet_data;
use crate::packet::reported_route;
use crate::packet::resolve_ack;
use crate::packet::resolve_route;
use crate::packet::route_completion;
use crate::packet::routes_after_payload;
use crate::packet::state_after_payload;
use crate::packet::store_payload;
use crate::packet::AppPayload;
use crate::packet::AppPayloadView;
use crate::packet::RouteCompletion;
use crate::packet::RouteCompletionView;
use crate::packet::completions_of_packet;
use crate::packet::routes_after_packet;
use crate::packet::state_after_packet;
use crate::packet::Completions;
use crate::packet::CompletionsView;
use crate::platform::hex_encode;
use crate::platform::unix_now;
use crate::platform::hex_text;
use crate::records::ChannelInfo;
use crate::records::ChannelInfoView;
use crate::records::MyNodeInfo;
use crate::records::MyNodeInfoView;
use crate::records::NodeInfo;
use crate::records::NodeInfoView;
use crate::records::User;
use crate::records::UserView;
use crate::registry::CorrelationRegistry;
use crate::views::opt_view;
use crate::state::DeviceState;
use crate::wire::RoutingNote;
use crate::state::lemma_upsert_keeps_distinct;
use crate::state::DeviceStateView;
use crate::text::hex8;
use crate::text::node_id_string;
use crate::text::push_signed_decimal;
use crate::text::signed_decimal;

verus! {

/// The identity record that a self-introduction of the device gives.
pub open spec fn my_info_record(update: MyInfoUpdateView) -> MyNodeInfoView {
    MyNodeInfoView {
        node_num: update.my_node_num,
        node_id: hex8(update.my_node_num),
        reboot_count: update.reboot_count,
        min_app_version: update.min_app_version,
        device_id: hex_text(update.device_id),
    }
}

/// The owner record that a node-identity envelope gives. Where the envelope
/// names no owner, the texts are empty and the hardware model is that of the
/// number zero.
pub open spec fn user_record(update: Option<UserUpdateView>) -> UserView {
    match update {
        Some(u) => UserView {
            id: u.id,
            long_name: u.long_name,
            short_name: u.short_name,
            hw_model: Some(hardware_model_name(u.hw_model)),
        },
        None => UserView {
            id: Seq::empty(),
            long_name: Seq::empty(),
            short_name: Seq::empty(),
            hw_model: Some(hardware_model_name(0)),
        },
    }
}

/// The node record that a node-identity envelope gives: every field comes
/// from the envelope, none from what was known before.
pub open spec fn node_record(update: NodeUpdateView) -> NodeInfoView {
    NodeInfoView {
        id: hex8(update.num),
        num: update.num,
        user: user_record(update.user),
        last_heard: Some(update.last_heard as u64),
        snr: Some(update.snr),
        rssi: Some(0i32),
    }
}

/// The name under which a channel without settings is kept.
pub open spec fn default_channel_name(index: i32) -> Seq<char> {
    "Channel "@ + signed_decimal(index as int)
}

/// The channel record that a channel-definition envelope gives.
pub open spec fn channel_record(update: ChannelUpdateView) -> ChannelInfoView {
    ChannelInfoView {
        index: update.index as u32,
        name: match update.settings {
            Some(s) => s.name,
            None => default_channel_name(update.index),
        },
        role: channel_role_name(update.role),
        has_psk: match update.settings {
            Some(s) => s.psk.len() > 0,
            None => false,
        },
        settings: update.settings,
    }
}

/// Builds the identity record of the local node.
pub fn build_my_info(update: MyInfoUpdate) -> (r: MyNodeInfo)
    ensures
        r@ == my_info_record(update@),
{
    MyNodeInfo {
        node_num: update.my_node_num,
        node_id: node_id_string(update.my_node_num),
        reboot_count: update.reboot_count,
        min_app_version: update.min_app_version,
        device_id: hex_encode(&update.device_id),
    }
}

/// Builds the owner record of a node.
pub fn build_user(update: Option<UserUpdate>) -> (r: User)
    ensures
        r@ == user_record(opt_view(update)),
{
    match update {
        Some(u) => User {
            id: u.id,
            long_name: u.long_name,
            short_name: u.short_name,
            hw_model: Some(hardware_model_text(u.hw_model)),
        },
        None => User {
            id: String::new(),
            long_name: String::new(),
            short_name: String::new(),
            hw_model: Some(hardware_model_text(0)),
        },
    }
}

/// Builds the record of a node.
pub fn build_node(update: NodeUpdate) -> (r: NodeInfo)
    ensures
        r@ == node_record(update@),
{
    NodeInfo {
        id: node_id_string(update.num),
        num: update.num,
        user: build_user(update.user),
        last_heard: Some(update.last_heard as u64),
        snr: Some(update.snr),
        rssi: Some(0),
    }
}

/// Builds the record of a channel.
pub fn build_channel(update: ChannelUpdate) -> (r: ChannelInfo)
    ensures
        r@ == channel_record(update@),
{
    let name = match &update.settings {
        Some(s) => s.name.clone(),
        None => {
            let mut name = String::from_str("Channel ");
            push_signed_decimal(&mut name, update.index);
            name
        },
    };
    let has_psk = match &update.settings {
        Some(s) => s.psk.len() > 0,
        None => false,
    };
    ChannelInfo {
        index: #[verifier::truncate]
        (update.index as u32),
        name,
        role: channel_role_text(update.role),
        has_psk,
        settings: update.settings,
    }
}

/// The device state after an envelope received at the time `now`. Each
/// envelope does the one thing its kind asks for; an envelope that is empty
/// or of a kind that is not read changes nothing.
pub open spec fn state_after_envelope(
    s: DeviceStateView,
    envelope: EnvelopeView,
    now: u64,
) -> DeviceStateView {
    match envelope {
        EnvelopeView::MyInfo(update) => s.with_my_node_info(my_info_record(update)),
        EnvelopeView::NodeInfo(update) => s.with_node(update.num, node_record(update)),
        EnvelopeView::Channel(update) => s.with_channel(channel_record(update)),
        EnvelopeView::Packet(packet) => state_after_packet(s, packet, now),
        _ => s,
    }
}

/// The pending route waits after an envelope.
pub open spec fn routes_after_envelope<R>(routes: Map<u32, R>, envelope: EnvelopeView) -> Map<
    u32,
    R,
> {
    match envelope {
        EnvelopeView::Packet(packet) => routes_after_packet(routes, packet),
        _ => routes,
    }
}

/// The pending ack waits after an envelope.
pub open spec fn acks_after_envelope<A>(acks: Map<u32, A>, envelope: EnvelopeView) -> Map<u32, A> {
    match envelope {
        EnvelopeView::Packet(packet) => acks_after_packet(acks, packet),
        _ => acks,
    }
}

/// The waits that an envelope resolves.
pub open spec fn completions_of_envelope<A, R>(
    s: DeviceStateView,
    acks: Map<u32, A>,
    routes: Map<u32, R>,
    envelope: EnvelopeView,
) -> CompletionsView<A, R> {
    match envelope {
        EnvelopeView::Packet(packet) => completions_of_packet(s.nodes, acks, routes, packet),
        _ => CompletionsView { route: None, ack: None },
    }
}

/// An envelope as the ingestion has read it: what it asks to be stored,
/// and the request that it answers.
#[derive(Debug)]
pub enum Intake {
    MyInfo(MyInfoUpdate),
    NodeInfo(NodeUpdate),
    Channel(ChannelUpdate),
    /// The decoded data of a mesh packet, with the header of the packet and
    /// the id of the request that the data answers.
    Data(PacketHeader, u32, AppPayload),
    /// An envelope that asks for nothing.
    Nothing,
}

pub enum IntakeView {
    MyInfo(MyInfoUpdateView),
    NodeInfo(NodeUpdateView),
    Channel(ChannelUpdateView),
    Data(PacketHeader, u32, AppPayloadView),
    Nothing,
}

impl View for Intake {
    type V = IntakeView;

    open spec fn view(&self) -> IntakeView {
        match self {
            Intake::MyInfo(update) => IntakeView::MyInfo(update@),
            Intake::NodeInfo(update) => IntakeView::NodeInfo(update@),
            Intake::Channel(update) => IntakeView::Channel(update@),
            Intake::Data(header, request_id, payload) => IntakeView::Data(
                *header,
                *request_id,
                payload@,
            ),
            Intake::Nothing => IntakeView::Nothing,
        }
    }
}

/// What the ingestion reads an envelope as.
pub open spec fn intake_of(envelope: EnvelopeView) -> IntakeView {
    match envelope {
        EnvelopeView::MyInfo(update) => IntakeView::MyInfo(update),
        EnvelopeView::NodeInfo(update) => IntakeView::NodeInfo(update),
        EnvelopeView::Channel(update) => IntakeView::Channel(update),
        EnvelopeView::Packet(packet) => match packet_data(packet) {
            Some((request_id, payload)) => IntakeView::Data(packet.header, request_id, payload),
            None => IntakeView::Nothing,
        },
        _ => IntakeView::Nothing,
    }
}

/// The device state after what was read from an envelope has been stored.
pub open spec fn state_after_intake(s: DeviceStateView, intake: IntakeView, now: u64) -> DeviceStateView {
    match intake {
        IntakeView::MyInfo(update) => s.with_my_node_info(my_info_record(update)),
        IntakeView::NodeInfo(update) => s.with_node(update.num, node_record(update)),
        IntakeView::Channel(update) => s.with_channel(channel_record(update)),
        IntakeView::Data(header, _, payload) => state_after_payload(s, header, payload, now),
        IntakeView::Nothing => s,
    }
}

/// The pending route waits after what was read from an envelope.
pub open spec fn routes_after_intake<R>(routes: Map<u32, R>, intake: IntakeView) -> Map<u32, R> {
    match intake {
        IntakeView::Data(_, request_id, payload) => routes_after_payload(
            routes,
            request_id,
            payload,
        ),
        _ => routes,
    }
}

/// The pending ack waits after what was read from an envelope.
pub open spec fn acks_after_intake<A>(acks: Map<u32, A>, intake: IntakeView) -> Map<u32, A> {
    match intake {
        IntakeView::Data(_, request_id, _) => acks_after_payload(acks, request_id),
        _ => acks,
    }
}

/// The route wait that what was read from an envelope resolves.
pub open spec fn route_completion_of<R>(
    s: DeviceStateView,
    routes: Map<u32, R>,
    intake: IntakeView,
) -> Option<RouteCompletionView<R>> {
    match intake {
        IntakeView::Data(_, request_id, payload) => route_completion(
            s.nodes,
            routes,
            request_id,
            payload,
        ),
        _ => None,
    }
}

/// The ack wait that what was read from an envelope resolves.
pub open spec fn ack_completion_of<A>(acks: Map<u32, A>, intake: IntakeView) -> Option<A> {
    match intake {
        IntakeView::Data(_, request_id, _) => ack_completion(acks, request_id),
        _ => None,
    }
}

/// Reading an envelope and then acting on what was read does what the
/// envelope asks for.
pub proof fn lemma_intake_agrees<A, R>(
    s: DeviceStateView,
    acks: Map<u32, A>,
    routes: Map<u32, R>,
    envelope: EnvelopeView,
    now: u64,
)
    ensures
        state_after_intake(s, intake_of(envelope), now) == state_after_envelope(s, envelope, now),
        routes_after_intake(routes, intake_of(envelope)) == routes_after_envelope(
            routes,
            envelope,
        ),
        acks_after_intake(acks, intake_of(envelope)) == acks_after_envelope(acks, envelope),
        (CompletionsView {
            route: route_completion_of(s, routes, intake_of(envelope)),
            ack: ack_completion_of(acks, intake_of(envelope)),
        }) == completions_of_envelope(s, acks, routes, envelope),
{
}

/// Reads an envelope: the data of a mesh packet is decoded by its port, and
/// an envelope that is empty, of a kind that is not read, or a packet
/// without readable data asks for nothing.
pub fn read_envelope(envelope: Envelope) -> (r: Intake)
    ensures
        r@ == intake_of(envelope@),
{
    match envelope {
        Envelope::MyInfo(update) => Intake::MyInfo(update),
        Envelope::NodeInfo(update) => Intake::NodeInfo(update),
        Envelope::Channel(update) => Intake::Channel(update),
        Envelope::Packet(packet) => match packet.body {
            PacketBody::Decoded(data) => {
                let payload = decode_payload(data.portnum, &data.payload);
                Intake::Data(packet.header, data.request_id, payload)
            },
            _ => Intake::Nothing,
        },
        _ => Intake::Nothing,
    }
}

/// Whether what was read from an envelope reports a route, so that it may
/// resolve a route wait.
pub open spec fn spec_reports_route(intake: IntakeView) -> bool {
    intake matches IntakeView::Data(_, request_id, payload) && reported_route(
        request_id,
        payload,
    ) is Some
}

/// What reports no route leaves the route registry alone and resolves no
/// route wait, so that the registry need not be looked at for it.
pub proof fn lemma_no_report_no_route<R>(s: DeviceStateView, routes: Map<u32, R>, intake: IntakeView)
    requires
        !spec_reports_route(intake),
    ensures
        routes_after_intake(routes, intake) == routes,
        route_completion_of(s, routes, intake) is None,
{
}

/// Whether what was read from an envelope reports a route.
pub fn reports_route(intake: &Intake) -> (r: bool)
    ensures
        r == spec_reports_route(intake@),
{
    match intake {
        Intake::Data(_, request_id, payload) => {
            *request_id != 0 && match payload {
                AppPayload::Routing(RoutingNote::RouteReply(_)) => true,
                AppPayload::Routing(RoutingNote::ErrorReason(_)) => true,
                _ => false,
            }
        },
        _ => false,
    }
}

/// Takes out of the route registry the wait that an envelope resolves, with
/// the hops named from what the state knows. This touches the route
/// registry alone, and reads the state.
pub fn resolve_route_wait<R>(
    routes: &mut CorrelationRegistry<R>,
    state: &DeviceState,
    intake: &Intake,
) -> (r: Option<RouteCompletion<R>>)
    ensures
        final(routes)@ == routes_after_intake(old(routes)@, intake@),
        opt_view(r) == route_completion_of(state@, old(routes)@, intake@),
{
    match intake {
        Intake::Data(_, request_id, payload) => resolve_route(routes, state, *request_id, payload),
        _ => None,
    }
}

/// Takes out of the ack registry the wait that an envelope resolves. This
/// touches the ack registry alone.
pub fn resolve_ack_wait<A>(acks: &mut CorrelationRegistry<A>, intake: &Intake) -> (r: Option<A>)
    ensures
        final(acks)@ == acks_after_intake(old(acks)@, intake@),
        r == ack_completion_of(old(acks)@, intake@),
{
    match intake {
        Intake::Data(_, request_id, _) => resolve_ack(acks, *request_id),
        _ => None,
    }
}

/// Stores in the state what was read from an envelope, as received at the
/// time `now`. The update is one step: the state holds either nothing of
/// the envelope or all of it.
pub fn store_intake(state: &mut DeviceState, intake: Intake, now: u64)
    ensures
        final(state)@ == state_after_intake(old(state)@, intake@, now),
        old(state)@.well_formed() ==> final(state)@.well_formed(),
{
    match intake {
        Intake::MyInfo(update) => {
            state.set_my_node_info(build_my_info(update));
        },
        Intake::NodeInfo(update) => {
            let num = update.num;
            state.update_node(num, build_node(update));
        },
        Intake::Channel(update) => {
            state.update_channel(build_channel(update));
        },
        Intake::Data(header, _, payload) => {
            store_payload(state, header, payload, now);
        },
        Intake::Nothing => {},
    }
}

/// Takes one envelope in, as received at the time `now`: the state holds
/// what the envelope says, the waits it resolves have left the registries,
/// and each is handed back with its outcome. Nothing an envelope holds makes
/// the ingestion fail.
pub fn apply_envelope<A, R>(
    envelope: Envelope,
    now: u64,
    state: &mut DeviceState,
    acks: &mut CorrelationRegistry<A>,
    routes: &mut CorrelationRegistry<R>,
) -> (done: Completions<A, R>)
    ensures
        final(state)@ == state_after_envelope(old(state)@, envelope@, now),
        final(routes)@ == routes_after_envelope(old(routes)@, envelope@),
        final(acks)@ == acks_after_envelope(old(acks)@, envelope@),
        done@ == completions_of_envelope(old(state)@, old(acks)@, old(routes)@, envelope@),
        old(state)@.well_formed() ==> final(state)@.well_formed(),
{
    proof {
        lemma_intake_agrees(old(state)@, old(acks)@, old(routes)@, envelope@, now);
    }
    let intake = read_envelope(envelope);
    let route = resolve_route_wait(routes, state, &intake);
    let ack = resolve_ack_wait(acks, &intake);
    store_intake(state, intake, now);
    Completions { route, ack }
}

/// Takes one envelope in, as received at the moment of the call.
pub fn process_from_radio_packet<A, R>(
    envelope: Envelope,
    state: &mut DeviceState,
    acks: &mut CorrelationRegistry<A>,
    routes: &mut CorrelationRegistry<R>,
) -> (done: Completions<A, R>)
    ensures
        exists|now: u64| final(state)@ == state_after_envelope(old(state)@, envelope@, now),
        final(routes)@ == routes_after_envelope(old(routes)@, envelope@),
        final(acks)@ == acks_after_envelope(old(acks)@, envelope@),
        done@ == completions_of_envelope(old(state)@, old(acks)@, old(routes)@, envelope@),
        old(state)@.well_formed() ==> final(state)@.well_formed(),
{
    let now = unix_now();
    apply_envelope(envelope, now, state, acks, routes)
}

/// One envelope together with the time at which it was received.
pub struct Arrival {
    pub envelope: EnvelopeView,
    pub at: u64,
}

/// The device state after a sequence of envelopes has been taken in, in the
/// order of their arrival.
pub open spec fn state_after_arrivals(s: DeviceStateView, arrivals: Seq<Arrival>) -> DeviceStateView
    decreases arrivals.len(),
{
    if arrivals.len() == 0 {
        s
    } else {
        state_after_envelope(
            state_after_arrivals(s, arrivals.drop_last()),
            arrivals.last().envelope,
            arrivals.last().at,
        )
    }
}

/// Whether an envelope is a node-identity envelope for node `num`.
pub open spec fn updates_node(envelope: EnvelopeView, num: u32) -> bool {
    envelope matches EnvelopeView::NodeInfo(update) && update.num == num
}

/// An envelope that is no node-identity envelope for node `num` leaves what
/// is known of that node as it is.
pub proof fn lemma_other_envelopes_keep_node(
    s: DeviceStateView,
    envelope: EnvelopeView,
    now: u64,
    num: u32,
)
    requires
        !updates_node(envelope, num),
    ensures
        state_after_envelope(s, envelope, now).nodes.contains_key(num) == s.nodes.contains_key(num),
        s.nodes.contains_key(num) ==> state_after_envelope(s, envelope, now).nodes[num]
            == s.nodes[num],
{
}

/// Last write wins: after any sequence of envelopes, what the state knows of
/// a node is exactly the record of the last node-identity envelope for that
/// node, with no field left over from an earlier one.
pub proof fn lemma_last_node_update_wins(
    s: DeviceStateView,
    arrivals: Seq<Arrival>,
    num: u32,
    i: int,
)
    requires
        0 <= i < arrivals.len(),
        updates_node(arrivals[i].envelope, num),
        forall|j: int| i < j < arrivals.len() ==> !updates_node(#[trigger] arrivals[j].envelope, num),
    ensures
        state_after_arrivals(s, arrivals).nodes.contains_key(num),
        state_after_arrivals(s, arrivals).nodes[num] == node_record(
            arrivals[i].envelope->NodeInfo_0,
        ),
    decreases arrivals.len(),
{
    let before = arrivals.drop_last();
    let last = arrivals.last();
    if i == arrivals.len() - 1 {
    } else {
        assert(!updates_node(arrivals[arrivals.len() - 1].envelope, num));
        assert forall|j: int| i < j < before.len() implies !updates_node(
            #[trigger] before[j].envelope,
            num,
        ) by {
            assert(before[j] == arrivals[j]);
        }
        assert(before[i] == arrivals[i]);
        lemma_last_node_update_wins(s, before, num, i);
        lemma_other_envelopes_keep_node(
            state_after_arrivals(s, before),
            last.envelope,
            last.at,
            num,
        );
    }
}

/// A node of which no envelope of a sequence speaks is known afterwards
/// exactly as it was known before.
pub proof fn lemma_node_kept_without_update(s: DeviceStateView, arrivals: Seq<Arrival>, num: u32)
    requires
        forall|j: int| 0 <= j < arrivals.len() ==> !updates_node(#[trigger] arrivals[j].envelope, num),
    ensures
        state_after_arrivals(s, arrivals).nodes.contains_key(num) == s.nodes.contains_key(num),
        s.nodes.contains_key(num) ==> state_after_arrivals(s, arrivals).nodes[num] == s.nodes[num],
    decreases arrivals.len(),
{
    if arrivals.len() > 0 {
        let before = arrivals.drop_last();
        let last = arrivals.last();
        assert(!updates_node(arrivals[arrivals.len() - 1].envelope, num));
        assert forall|j: int| 0 <= j < before.len() implies !updates_node(
            #[trigger] before[j].envelope,
            num,
        ) by {
            assert(before[j] == arrivals[j]);
        }
        lemma_node_kept_without_update(s, before, num);
        lemma_other_envelopes_keep_node(
            state_after_arrivals(s, before),
            last.envelope,
            last.at,
            num,
        );
    }
}

/// No envelope makes two channels share an index.
pub proof fn lemma_envelope_keeps_channels_distinct(
    s: DeviceStateView,
    envelope: EnvelopeView,
    now: u64,
)
    requires
        s.well_formed(),
    ensures
        state_after_envelope(s, envelope, now).well_formed(),
{
    match envelope {
        EnvelopeView::Channel(update) => {
            lemma_upsert_keeps_distinct(s.channels, channel_record(update));
        },
        _ => {},
    }
}

/// From the empty state of a fresh connection, no sequence of envelopes
/// leads to a state in which two channels share an index.
pub proof fn lemma_channels_stay_distinct(arrivals: Seq<Arrival>)
    ensures
        state_after_arrivals(DeviceStateView::empty(), arrivals).well_formed(),
    decreases arrivals.len(),
{
    if arrivals.len() > 0 {
        lemma_channels_stay_distinct(arrivals.drop_last());
        lemma_envelope_keeps_channels_distinct(
            state_after_arrivals(DeviceStateView::empty(), arrivals.drop_last()),
            arrivals.last().envelope,
            arrivals.last().at,
        );
    }
}

/// Messages are only ever appended: what the state held before an envelope
/// it still holds afterwards, in the same places, and an envelope adds at
/// most one message.
pub proof fn lemma_messages_are_append_only(s: DeviceStateView, envelope: EnvelopeView, now: u64)
    ensures
        s.messages.len() <= state_after_envelope(s, envelope, now).messages.len()
            <= s.messages.len() + 1,
        state_after_envelope(s, envelope, now).messages.take(s.messages.len() as int)
            == s.messages,
{
    let after = state_after_envelope(s, envelope, now).messages;
    assert(after.take(s.messages.len() as int) =~= s.messages);
}

} // verus!
