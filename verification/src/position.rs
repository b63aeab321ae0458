//! Position reads: from the cache, by request to one node with a poll for
//! the answer, and by watching the inbound stream.

use std::collections::HashMap;
use vstd::prelude::*;
use vstd::std_specs::hash::*;
use vstd::std_specs::iter::IteratorSpec;
use crate::outbound::encode_blank_message;
use crate::envelope::Envelope;
use crate::envelope::EnvelopeView;
use crate::envelope::PacketBody;
use crate::envelope::PacketBodyView;
use crate::outbound::DataRequest;
use crate::outbound::DataRequestView;
use crate::outbound::Destination;
use crate::packet::build_position;
use crate::packet::position_record;
use crate::poller::deadline_passed;
use crate::poller::poll_outcome;
use crate::poller::PollStep;
use crate::records::Position;
use crate::records::PositionView;
use crate::views::lemma_map_view_insert;
use crate::views::map_view;
use crate::views::opt_view;
use crate::state::DeviceState;
use crate::state::DeviceStateView;
use crate::wire::decode_position;
use crate::wire::decoded_position;
use crate::wire::port_kind;
use crate::wire::port_kind_of;
use crate::wire::PortKind;

verus! {

broadcast use vstd::std_specs::hash::group_hash_axioms;

/// The age in seconds below which a cached position is returned without a
/// new request.
pub const POSITION_FRESH_SECS: u64 = 60;

/// The milliseconds between two looks at the cache while a position request
/// is pending.
pub const POSITION_POLL_MILLIS: u64 = 100;

/// The milliseconds between two looks at the cache while positions are
/// collected.
pub const COLLECT_POLL_MILLIS: u64 = 250;

/// The seconds that a request to all nodes waits for their answers.
pub const ALL_POSITIONS_WAIT_SECS: u64 = 10;

/// The position that the state holds for a node, if any.
pub open spec fn position_of(s: DeviceStateView, node_num: u32) -> Option<PositionView> {
    if s.positions.contains_key(node_num) {
        Some(s.positions[node_num])
    } else {
        None
    }
}

/// The position that a read asks for: that of the named node, and that of
/// the local node where none is named and the local node is known.
pub open spec fn wanted_position(s: DeviceStateView, node_num: Option<u32>) -> Option<
    PositionView,
> {
    match node_num {
        Some(num) => position_of(s, num),
        None => match s.my_node_info {
            Some(info) => position_of(s, info.node_num),
            None => None,
        },
    }
}

/// Whether a position received at `last_updated` is fresh at the time `now`:
/// received no later than now and less than a minute ago.
pub open spec fn is_fresh(last_updated: u64, now: u64) -> bool {
    last_updated <= now && now - last_updated < POSITION_FRESH_SECS
}

/// The position to return without a new request: the cached one, where it is
/// fresh.
pub open spec fn fresh_position(s: DeviceStateView, node_num: u32, now: u64) -> Option<
    PositionView,
> {
    match position_of(s, node_num) {
        Some(p) => if is_fresh(p.last_updated, now) {
            Some(p)
        } else {
            None
        },
        None => None,
    }
}

/// The position that counts as the answer to a request begun at
/// `started_at`: the cached one, once it was received after that moment.
pub open spec fn answered_position(s: DeviceStateView, node_num: u32, started_at: u64) -> Option<
    PositionView,
> {
    match position_of(s, node_num) {
        Some(p) => if p.last_updated > started_at {
            Some(p)
        } else {
            None
        },
        None => None,
    }
}

/// The data request that asks a node for its position: a position without
/// any field, sent to that node on the primary channel, with the wish for a
/// response and without the wish for an acknowledgement.
pub open spec fn position_request_to(node_num: u32) -> DataRequestView {
    DataRequestView {
        payload: Seq::empty(),
        port: PortKind::Position,
        destination: Destination::Node(node_num),
        channel: 0,
        want_ack: false,
        want_response: true,
        echo_response: false,
        reply_id: None,
        emoji: None,
    }
}

/// A copy of the position asked for, from the cache alone.
pub fn get_position(state: &DeviceState, node_num: Option<u32>) -> (r: Option<Position>)
    ensures
        opt_view(r) == wanted_position(state@, node_num),
{
    let num = match node_num {
        Some(num) => num,
        None => match &state.my_node_info {
            Some(info) => info.node_num,
            None => {
                return None;
            },
        },
    };
    match state.positions.get(&num) {
        Some(position) => Some(position.clone()),
        None => None,
    }
}

/// A copy of the cached position of a node, where it is fresh enough to
/// stand for the answer to a request that is then not sent.
pub fn cached_position(state: &DeviceState, node_num: u32, now: u64) -> (r: Option<Position>)
    ensures
        opt_view(r) == fresh_position(state@, node_num, now),
{
    match state.positions.get(&node_num) {
        Some(position) => {
            if position.last_updated <= now && now - position.last_updated < POSITION_FRESH_SECS {
                Some(position.clone())
            } else {
                None
            }
        },
        None => None,
    }
}

/// Builds the request that asks a node for its position.
pub fn position_request(node_num: u32) -> (r: DataRequest)
    ensures
        r@ == position_request_to(node_num),
{
    DataRequest {
        payload: encode_blank_message(),
        port: PortKind::Position,
        destination: Destination::Node(node_num),
        channel: 0,
        want_ack: false,
        want_response: true,
        echo_response: false,
        reply_id: None,
        emoji: None,
    }
}

/// One look at the cache while a position request is pending: the poll is
/// over once the deadline has passed; before that, a position received after
/// the request began is the answer, and without one the poll waits.
pub fn position_poll(
    state: &DeviceState,
    node_num: u32,
    started_at: u64,
    elapsed_secs: u64,
    timeout_secs: u64,
) -> (r: PollStep<Position>)
    ensures
        r@ == poll_outcome(
            answered_position(state@, node_num, started_at),
            elapsed_secs,
            timeout_secs,
        ),
{
    if deadline_passed(elapsed_secs, timeout_secs) {
        return PollStep::TimedOut;
    }
    match state.positions.get(&node_num) {
        Some(position) => {
            if position.last_updated > started_at {
                PollStep::Found(position.clone())
            } else {
                PollStep::Wait
            }
        },
        None => PollStep::Wait,
    }
}

/// Whether `filter` lets the node `from` through: an empty filter lets every
/// node through.
pub open spec fn passes_filter(filter: Seq<u32>, from: u32) -> bool {
    filter.len() == 0 || filter.contains(from)
}

/// The position that an envelope reports as received at the time `now`, for
/// a watcher that listens to the nodes of `filter`: that of a position
/// packet with both coordinates from a node that passes the filter.
pub open spec fn tracked_position(envelope: EnvelopeView, filter: Seq<u32>, now: u64) -> Option<
    PositionView,
> {
    match envelope {
        EnvelopeView::Packet(packet) => match packet.body {
            PacketBodyView::Decoded(data) => if passes_filter(filter, packet.header.from)
                && port_kind_of(data.portnum) == PortKind::Position {
                match decoded_position(data.payload) {
                    Some(fix) => position_record(packet.header.from, fix, now),
                    None => None,
                }
            } else {
                None
            },
            _ => None,
        },
        _ => None,
    }
}

/// Whether `nodes` holds `num`.
pub fn holds(nodes: &Vec<u32>, num: u32) -> (r: bool)
    ensures
        r == nodes@.contains(num),
{
    let mut i: usize = 0;
    while i < nodes.len()
        invariant
            i <= nodes.len(),
            forall|j: int| 0 <= j < i ==> nodes@[j] != num,
        decreases nodes.len() - i,
    {
        if nodes[i] == num {
            return true;
        }
        i = i + 1;
    }
    false
}

/// Reads one envelope of the raw stream for a position, as received at the
/// time `now`.
pub fn process_packet_for_position(envelope: &Envelope, node_filter: &Vec<u32>, now: u64) -> (r:
    Option<Position>)
    ensures
        opt_view(r) == tracked_position(envelope@, node_filter@, now),
{
    match envelope {
        Envelope::Packet(packet) => {
            if node_filter.len() > 0 && !holds(node_filter, packet.header.from) {
                return None;
            }
            match &packet.body {
                PacketBody::Decoded(data) => {
                    match port_kind(data.portnum) {
                        PortKind::Position => {},
                        _ => {
                            return None;
                        },
                    }
                    match decode_position(&data.payload) {
                        Some(fix) => build_position(packet.header.from, fix, now),
                        None => None,
                    }
                },
                _ => None,
            }
        },
        _ => None,
    }
}

/// Whether the cache holds a position of node `num` that was received after
/// the time `since`.
pub open spec fn is_newer(positions: Map<u32, PositionView>, num: u32, since: u64) -> bool {
    positions.contains_key(num) && positions[num].last_updated > since
}

/// The positions collected after one more look at the cache: every cached
/// position that was received after the last look is taken over, in place of
/// what was collected for its node before.
pub open spec fn collected_after(
    collected: Map<u32, PositionView>,
    positions: Map<u32, PositionView>,
    since: u64,
) -> Map<u32, PositionView> {
    Map::new(
        |num: u32| collected.contains_key(num) || is_newer(positions, num, since),
        |num: u32|
            if is_newer(positions, num, since) {
                positions[num]
            } else {
                collected[num]
            },
    )
}

/// The positions that a collection returns: those of the cache at its end,
/// with what was collected on the way in place of the cached position of
/// the same node.
pub open spec fn merged_positions(
    cached: Map<u32, PositionView>,
    collected: Map<u32, PositionView>,
) -> Map<u32, PositionView> {
    cached.union_prefer_right(collected)
}

/// Takes over into `collected` a copy of every cached position that was
/// received after the time `since`.
pub fn collect_newer(state: &DeviceState, collected: &mut HashMap<u32, Position>, since: u64)
    ensures
        map_view(final(collected)@) == collected_after(
            map_view(old(collected)@),
            state@.positions,
            since,
        ),
{
    let ghost before = map_view(collected@);
    let ghost cached = state@.positions;
    let ghost all = spec_hash_map_iter(&state.positions).remaining();
    let ghost mut seen: int = 0;
    for pair in it: state.positions.iter()
        invariant
            it.seq() == all,
            all == spec_hash_map_iter(&state.positions).remaining(),
            cached == state@.positions,
            seen == it.index(),
            forall|k: u32| #[trigger]
                before.contains_key(k) ==> map_view(collected@).contains_key(k),
            forall|k: u32| #[trigger]
                map_view(collected@).contains_key(k) ==> before.contains_key(k) || is_newer(
                    cached,
                    k,
                    since,
                ),
            forall|k: u32|
                #[trigger] map_view(collected@).contains_key(k) && !is_newer(cached, k, since)
                    ==> map_view(collected@)[k] == before[k],
            forall|k: u32|
                #[trigger] map_view(collected@).contains_key(k) && is_newer(cached, k, since)
                    ==> map_view(collected@)[k] == cached[k] || (before.contains_key(k)
                    && map_view(collected@)[k] == before[k]),
            forall|j: int|
                0 <= j < seen && is_newer(cached, *(#[trigger] all[j]).0, since) ==> map_view(
                    collected@,
                ).contains_key(*all[j].0) && map_view(collected@)[*all[j].0] == cached[*all[j].0],
    {
        let (num, position) = pair;
        proof {
            assert(all[seen] == pair);
            assert(state.positions@.contains_key(*num) && state.positions@[*num] == *position);
            assert(cached.contains_key(*num) && cached[*num] == position@);
        }
        if position.last_updated > since {
            let copy = position.clone();
            proof {
                lemma_map_view_insert(collected@, *num, copy);
            }
            collected.insert(*num, copy);
        }
        proof {
            seen = seen + 1;
        }
    }
    proof {
        let after = map_view(collected@);
        let wanted = collected_after(before, cached, since);
        assert forall|k: u32| is_newer(cached, k, since) implies after.contains_key(k) && after[k]
            == cached[k] by {
            assert(state.positions@.contains_key(k));
            let entry = (&k, &state.positions@[k]);
            assert(all.contains(entry));
            let j = choose|j: int| 0 <= j < all.len() && all[j] == entry;
            assert(*all[j].0 == k);
        }
        assert(after =~= wanted);
    }
}

/// Merges what a collection gathered into the positions that the cache holds
/// at its end.
pub fn merge_collected(cached: HashMap<u32, Position>, collected: &HashMap<u32, Position>) -> (r:
    HashMap<u32, Position>)
    ensures
        map_view(r@) == merged_positions(map_view(cached@), map_view(collected@)),
{
    let mut merged = cached;
    let ghost before = map_view(cached@);
    let ghost extra = map_view(collected@);
    let ghost all = spec_hash_map_iter(collected).remaining();
    let ghost mut seen: int = 0;
    for pair in it: collected.iter()
        invariant
            it.seq() == all,
            all == spec_hash_map_iter(collected).remaining(),
            extra == map_view(collected@),
            seen == it.index(),
            forall|k: u32| #[trigger] before.contains_key(k) ==> map_view(merged@).contains_key(k),
            forall|k: u32| #[trigger]
                map_view(merged@).contains_key(k) ==> before.contains_key(k) || extra.contains_key(
                    k,
                ),
            forall|k: u32|
                #[trigger] map_view(merged@).contains_key(k) && !extra.contains_key(k)
                    ==> map_view(merged@)[k] == before[k],
            forall|j: int|
                0 <= j < seen ==> map_view(merged@).contains_key(*(#[trigger] all[j]).0)
                    && map_view(merged@)[*all[j].0] == extra[*all[j].0],
    {
        let (num, position) = pair;
        proof {
            assert(all[seen] == pair);
            assert(collected@.contains_key(*num) && collected@[*num] == *position);
            assert(extra.contains_key(*num) && extra[*num] == position@);
        }
        let copy = position.clone();
        proof {
            lemma_map_view_insert(merged@, *num, copy);
        }
        merged.insert(*num, copy);
        proof {
            seen = seen + 1;
        }
    }
    proof {
        let after = map_view(merged@);
        assert forall|k: u32| extra.contains_key(k) implies after.contains_key(k) && after[k]
            == extra[k] by {
            assert(collected@.contains_key(k));
            let entry = (&k, &collected@[k]);
            assert(all.contains(entry));
            let j = choose|j: int| 0 <= j < all.len() && all[j] == entry;
            assert(*all[j].0 == k);
        }
        assert(after =~= merged_positions(before, extra));
    }
    merged
}

/// The position that this node announces to the mesh.
#[derive(Clone, Copy, Debug, PartialEq, Eq, Structural)]
pub struct PositionReport {
    pub latitude_i: i32,
    pub longitude_i: i32,
    pub altitude: Option<i32>,
    /// The time of the report in seconds since the Unix epoch, as far as 32
    /// bits hold it.
    pub time: u32,
    pub destination: Destination,
    pub want_ack: bool,
    pub channel: u32,
}

/// The report of a position taken at the time `now`: broadcast on the
/// primary channel, with the wish for an acknowledgement.
pub open spec fn position_report(
    latitude_i: i32,
    longitude_i: i32,
    altitude: Option<i32>,
    now: u64,
) -> PositionReport {
    PositionReport {
        latitude_i,
        longitude_i,
        altitude,
        time: now as u32,
        destination: Destination::Broadcast,
        want_ack: true,
        channel: 0,
    }
}

/// Builds the report that sets the position of the connected device, from
/// coordinates in ten-millionths of a degree.
pub fn set_position(latitude_i: i32, longitude_i: i32, altitude: Option<i32>, now: u64) -> (r:
    PositionReport)
    ensures
        r == position_report(latitude_i, longitude_i, altitude, now),
{
    PositionReport {
        latitude_i,
        longitude_i,
        altitude,
        time: #[verifier::truncate]
        (now as u32),
        destination: Destination::Broadcast,
        want_ack: true,
        channel: 0,
    }
}

/// The numbers of all nodes that the state knows, each once, in no
/// particular order: the nodes that a request to all nodes goes to.
pub fn known_nodes(state: &DeviceState) -> (r: Vec<u32>)
    ensures
        r@.to_set() == state@.nodes.dom(),
        r@.no_duplicates(),
        r@.len() == state@.nodes.len(),
{
    let mut nodes: Vec<u32> = Vec::new();
    let ghost all = spec_keys_iter(&state.nodes).remaining();
    for num in it: state.nodes.keys()
        invariant
            it.seq() == all,
            all == spec_keys_iter(&state.nodes).remaining(),
            nodes@.len() == it.index(),
            forall|j: int| 0 <= j < nodes@.len() ==> nodes@[j] == *(#[trigger] all[j]),
    {
        nodes.push(*num);
    }
    proof {
        assert(nodes@ =~= all.unref());
        assert(state@.nodes.dom() =~= state.nodes@.dom());
        assert(all.unref().to_set() == state.nodes@.dom());
        assert forall|i: int, j: int|
            0 <= i < nodes@.len() && 0 <= j < nodes@.len() && i != j implies nodes@[i]
            != nodes@[j] by {
            assert(all[i] != all[j]);
        }
        assert(state@.nodes.len() == state.nodes@.len());
    }
    nodes
}

} // verus!
