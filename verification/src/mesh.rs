//! What the cached state says of the mesh as a whole: its nodes, their
//! links to this node, and how healthy the mesh looks.

use vstd::prelude::*;
use vstd::std_specs::hash::*;
use vstd::std_specs::iter::IteratorSpec;
use vstd::string::*;
use crate::records::Ieee32;
use crate::records::NodeInfo;
use crate::records::NodeInfoView;
use crate::views::seq_view;
use crate::state::DeviceState;

verus! {

broadcast use vstd::std_specs::hash::group_hash_axioms;

/// How well this node is connected to the mesh.
#[derive(Clone, Copy, Debug, PartialEq, Eq, Structural)]
pub enum MeshHealth {
    Isolated,
    Weak,
    Fair,
    Good,
    Excellent,
}

impl MeshHealth {
    /// The health that follows from the number of direct neighbours and the
    /// average signal-to-noise ratio over the nodes that report one: without
    /// neighbours the node is isolated, with one the mesh is weak; with more,
    /// an average above 5.0 is excellent, one above zero good, anything else
    /// fair.
    pub open spec fn spec_from_metrics(neighbors: usize, average_snr: Option<Ieee32>) -> MeshHealth {
        if neighbors == 0 {
            MeshHealth::Isolated
        } else if neighbors == 1 {
            MeshHealth::Weak
        } else if average_snr is Some && average_snr->0.spec_exceeds_five() {
            MeshHealth::Excellent
        } else if average_snr is Some && average_snr->0.spec_is_positive() {
            MeshHealth::Good
        } else {
            MeshHealth::Fair
        }
    }

    /// Classifies the mesh by neighbour count and average signal-to-noise
    /// ratio.
    #[verifier::when_used_as_spec(spec_from_metrics)]
    pub fn from_metrics(neighbors: usize, average_snr: Option<Ieee32>) -> (r: MeshHealth)
        ensures
            r == Self::spec_from_metrics(neighbors, average_snr),
    {
        if neighbors == 0 {
            MeshHealth::Isolated
        } else if neighbors == 1 {
            MeshHealth::Weak
        } else {
            match average_snr {
                Some(snr) => {
                    if snr.exceeds_five() {
                        MeshHealth::Excellent
                    } else if snr.is_positive() {
                        MeshHealth::Good
                    } else {
                        MeshHealth::Fair
                    }
                },
                None => MeshHealth::Fair,
            }
        }
    }

    /// The name of the health level.
    pub open spec fn name(self) -> Seq<char> {
        match self {
            MeshHealth::Isolated => "Isolated"@,
            MeshHealth::Weak => "Weak"@,
            MeshHealth::Fair => "Fair"@,
            MeshHealth::Good => "Good"@,
            MeshHealth::Excellent => "Excellent"@,
        }
    }

    /// The name of the health level as text.
    pub fn to_string(&self) -> (s: String)
        ensures
            s@ == self.name(),
    {
        match self {
            MeshHealth::Isolated => String::from_str("Isolated"),
            MeshHealth::Weak => String::from_str("Weak"),
            MeshHealth::Fair => String::from_str("Fair"),
            MeshHealth::Good => String::from_str("Good"),
            MeshHealth::Excellent => String::from_str("Excellent"),
        }
    }
}

/// One hop of a discovered route.
#[derive(Debug)]
pub struct RouteHop {
    pub node_id: u32,
    pub node_name: String,
    pub hop_number: u32,
    pub snr: Option<Ieee32>,
    pub rssi: Option<i32>,
}

pub struct RouteHopView {
    pub node_id: u32,
    pub node_name: Seq<char>,
    pub hop_number: u32,
    pub snr: Option<Ieee32>,
    pub rssi: Option<i32>,
}

impl View for RouteHop {
    type V = RouteHopView;

    open spec fn view(&self) -> RouteHopView {
        RouteHopView {
            node_id: self.node_id,
            node_name: self.node_name@,
            hop_number: self.hop_number,
            snr: self.snr,
            rssi: self.rssi,
        }
    }
}

impl Clone for RouteHop {
    fn clone(&self) -> (r: Self)
        ensures
            r@ == self@,
    {
        RouteHop {
            node_id: self.node_id,
            node_name: self.node_name.clone(),
            hop_number: self.hop_number,
            snr: self.snr,
            rssi: self.rssi,
        }
    }
}

/// The seconds within which a node must have been heard to count as active.
pub const ACTIVE_WINDOW_SECS: u64 = 3600;

/// A node together with the number under which the state keeps it.
pub struct NodeEntryView {
    pub num: u32,
    pub node: NodeInfoView,
}

/// A node together with the number under which the state keeps it.
#[derive(Debug)]
pub struct NodeEntry {
    pub num: u32,
    pub node: NodeInfo,
}

impl View for NodeEntry {
    type V = NodeEntryView;

    open spec fn view(&self) -> NodeEntryView {
        NodeEntryView { num: self.num, node: self.node@ }
    }
}

/// Whether `entries` lists the nodes of `nodes` under their numbers: each
/// number once, with the node kept under it.
pub open spec fn lists_entries(entries: Seq<NodeEntryView>, nodes: Map<u32, NodeInfoView>) -> bool {
    &&& entries.len() == nodes.len()
    &&& forall|i: int|
        0 <= i < entries.len() ==> nodes.contains_key((#[trigger] entries[i]).num)
            && nodes[entries[i].num] == entries[i].node
    &&& forall|i: int, j: int|
        0 <= i < j < entries.len() ==> (#[trigger] entries[i]).num != (#[trigger] entries[j]).num
    &&& forall|k: u32| #[trigger]
        nodes.contains_key(k) ==> exists|i: int|
            0 <= i < entries.len() && (#[trigger] entries[i]).num == k
}

/// Whether `listing` lists the nodes of `nodes`: each node that is kept,
/// once for each number under which it is kept, and nothing else. The order
/// is that in which the store happens to walk its nodes.
pub open spec fn lists_nodes(listing: Seq<NodeInfoView>, nodes: Map<u32, NodeInfoView>) -> bool {
    exists|entries: Seq<NodeEntryView>| #[trigger]
        lists_entries(entries, nodes) && listing == entries.map_values(
            |e: NodeEntryView| e.node,
        )
}

/// Copies of all nodes of the state, each with its number.
pub fn node_entries(state: &DeviceState) -> (r: Vec<NodeEntry>)
    ensures
        lists_entries(seq_view(r@), state@.nodes),
{
    let mut entries: Vec<NodeEntry> = Vec::new();
    let ghost all = spec_hash_map_iter(&state.nodes).remaining();
    for pair in it: state.nodes.iter()
        invariant
            it.seq() == all,
            all == spec_hash_map_iter(&state.nodes).remaining(),
            entries@.len() == it.index(),
            forall|j: int|
                0 <= j < entries@.len() ==> (#[trigger] entries@[j]).num == *all[j].0
                    && entries@[j].node@ == all[j].1@,
    {
        let (num, node) = pair;
        entries.push(NodeEntry { num: *num, node: node.clone() });
    }
    proof {
        let listed = seq_view(entries@);
        assert(state@.nodes.dom() =~= state.nodes@.dom());
        assert forall|i: int| 0 <= i < listed.len() implies state@.nodes.contains_key(
            (#[trigger] listed[i]).num,
        ) && state@.nodes[listed[i].num] == listed[i].node by {
            assert(state.nodes@.contains_key(*all[i].0) && state.nodes@[*all[i].0] == *all[i].1);
        }
        assert forall|i: int, j: int| 0 <= i < j < listed.len() implies (#[trigger] listed[i]).num
            != (#[trigger] listed[j]).num by {
            assert(state.nodes@.contains_key(*all[i].0) && state.nodes@[*all[i].0] == *all[i].1);
            assert(state.nodes@.contains_key(*all[j].0) && state.nodes@[*all[j].0] == *all[j].1);
            if *all[i].0 == *all[j].0 {
                assert(all[i] == all[j]);
            }
        }
        assert forall|k: u32| #[trigger] state@.nodes.contains_key(k) implies exists|i: int|
            0 <= i < listed.len() && (#[trigger] listed[i]).num == k by {
            assert(state.nodes@.contains_key(k));
            let entry = (&k, &state.nodes@[k]);
            assert(all.contains(entry));
            let i = choose|i: int| 0 <= i < all.len() && all[i] == entry;
            assert(listed[i].num == k);
        }
    }
    entries
}

/// Copies of all nodes that the state knows.
pub fn get_nodes(state: &DeviceState) -> (r: Vec<NodeInfo>)
    ensures
        lists_nodes(seq_view(r@), state@.nodes),
{
    let entries = node_entries(state);
    let ghost listed = seq_view(entries@);
    let mut nodes: Vec<NodeInfo> = Vec::new();
    let mut i: usize = 0;
    while i < entries.len()
        invariant
            i <= entries.len(),
            listed == seq_view(entries@),
            nodes@.len() == i,
            forall|j: int| 0 <= j < i ==> (#[trigger] nodes@[j])@ == listed[j].node,
        decreases entries.len() - i,
    {
        nodes.push(entries[i].node.clone());
        i = i + 1;
    }
    proof {
        assert(seq_view(nodes@) =~= listed.map_values(|e: NodeEntryView| e.node));
    }
    nodes
}

/// Whether a signal reading of the node is known, which marks it as a direct
/// neighbour.
pub open spec fn has_signal(node: NodeInfoView) -> bool {
    node.snr is Some || node.rssi is Some
}

/// Whether the node was heard within the last hour before `now`. A node
/// heard at a later time than `now` counts as heard just now.
pub open spec fn heard_recently(node: NodeInfoView, now: u64) -> bool {
    node.last_heard is Some && (now <= node.last_heard->0 || now - node.last_heard->0
        < ACTIVE_WINDOW_SECS)
}

/// Whether the node is a neighbour that was heard recently.
pub open spec fn is_recent_neighbor(node: NodeInfoView, now: u64) -> bool {
    has_signal(node) && heard_recently(node, now)
}

/// The recent neighbours among listed nodes, in the order of the listing.
pub open spec fn recent_neighbors(listing: Seq<NodeInfoView>, now: u64) -> Seq<NodeInfoView> {
    listing.filter(|n: NodeInfoView| is_recent_neighbor(n, now))
}

/// Whether the node was heard within the last hour before `now`.
pub fn was_heard_recently(node: &NodeInfo, now: u64) -> (r: bool)
    ensures
        r == heard_recently(node@, now),
{
    match node.last_heard {
        Some(heard) => now <= heard || now - heard < ACTIVE_WINDOW_SECS,
        None => false,
    }
}

/// Copies of the nodes among `nodes` that are direct neighbours heard within
/// the last hour before `now`, in the order of `nodes`.
pub fn neighbors_among(nodes: &Vec<NodeInfo>, now: u64) -> (r: Vec<NodeInfo>)
    ensures
        seq_view(r@) == recent_neighbors(seq_view(nodes@), now),
{
    let ghost keep = |n: NodeInfoView| is_recent_neighbor(n, now);
    let ghost listing = seq_view(nodes@);
    let mut neighbors: Vec<NodeInfo> = Vec::new();
    let mut i: usize = 0;
    proof {
        reveal(Seq::filter);
        assert(listing.take(0).filter(keep) =~= Seq::<NodeInfoView>::empty());
        assert(seq_view(neighbors@) =~= Seq::<NodeInfoView>::empty());
    }
    while i < nodes.len()
        invariant
            i <= nodes.len(),
            listing == seq_view(nodes@),
            keep == |n: NodeInfoView| is_recent_neighbor(n, now),
            seq_view(neighbors@) == listing.take(i as int).filter(keep),
        decreases nodes.len() - i,
    {
        let node = &nodes[i];
        let ghost earlier = seq_view(neighbors@);
        proof {
            reveal(Seq::filter);
            assert(listing.take(i + 1).drop_last() =~= listing.take(i as int));
            assert(listing.take(i + 1).last() == node@);
        }
        if (node.snr.is_some() || node.rssi.is_some()) && was_heard_recently(node, now) {
            neighbors.push(node.clone());
            assert(seq_view(neighbors@) =~= earlier.push(node@));
        }
        i = i + 1;
    }
    assert(listing.take(nodes.len() as int) =~= listing);
    neighbors
}

/// Copies of the direct neighbours that were heard within the last hour
/// before `now`: those among the nodes of the state, in the order in which
/// the store walks them.
pub fn get_neighbors(state: &DeviceState, now: u64) -> (r: Vec<NodeInfo>)
    ensures
        exists|listing: Seq<NodeInfoView>| #[trigger]
            lists_nodes(listing, state@.nodes) && seq_view(r@) == recent_neighbors(listing, now),
{
    let nodes = get_nodes(state);
    neighbors_among(&nodes, now)
}

/// Figures that sum the mesh up.
#[derive(Clone, Copy, Debug, PartialEq, Eq, Structural)]
pub struct NetworkStats {
    pub total_nodes: usize,
    pub active_nodes: usize,
    pub neighbors: usize,
    pub average_snr: Option<Ieee32>,
    pub average_rssi: Option<i32>,
    pub mesh_health: MeshHealth,
}

/// The number of listed nodes that were heard within the last hour.
pub open spec fn count_active(listing: Seq<NodeInfoView>, now: u64) -> nat
    decreases listing.len(),
{
    if listing.len() == 0 {
        0
    } else {
        count_active(listing.drop_last(), now) + if heard_recently(listing.last(), now) {
            1nat
        } else {
            0nat
        }
    }
}

/// The number of listed nodes of which a signal reading is known.
pub open spec fn count_neighbors(listing: Seq<NodeInfoView>) -> nat
    decreases listing.len(),
{
    if listing.len() == 0 {
        0
    } else {
        count_neighbors(listing.drop_last()) + if has_signal(listing.last()) {
            1nat
        } else {
            0nat
        }
    }
}

/// The number of listed nodes of which the signal strength is known.
pub open spec fn rssi_count(listing: Seq<NodeInfoView>) -> nat
    decreases listing.len(),
{
    if listing.len() == 0 {
        0
    } else {
        rssi_count(listing.drop_last()) + if listing.last().rssi is Some {
            1nat
        } else {
            0nat
        }
    }
}

/// The sum of the known signal strengths of the listed nodes.
pub open spec fn rssi_sum(listing: Seq<NodeInfoView>) -> int
    decreases listing.len(),
{
    if listing.len() == 0 {
        0
    } else {
        rssi_sum(listing.drop_last()) + match listing.last().rssi {
            Some(rssi) => rssi as int,
            None => 0,
        }
    }
}

/// The quotient of a sum by a positive count, rounded towards zero.
pub open spec fn quotient_towards_zero(sum: int, count: int) -> int {
    if sum >= 0 {
        sum / count
    } else {
        -((-sum) / count)
    }
}

/// The average of the known signal strengths, rounded towards zero; none
/// where no signal strength is known.
pub open spec fn average_rssi(listing: Seq<NodeInfoView>) -> Option<i32> {
    if rssi_count(listing) > 0 {
        Some(quotient_towards_zero(rssi_sum(listing), rssi_count(listing) as int) as i32)
    } else {
        None
    }
}

/// The figures of a listing of nodes at the time `now`. The average
/// signal-to-noise ratio is the caller's: it is only classified here.
pub open spec fn network_stats(
    listing: Seq<NodeInfoView>,
    now: u64,
    average_snr: Option<Ieee32>,
) -> NetworkStats {
    NetworkStats {
        total_nodes: listing.len() as usize,
        active_nodes: count_active(listing, now) as usize,
        neighbors: count_neighbors(listing) as usize,
        average_snr,
        average_rssi: average_rssi(listing),
        mesh_health: MeshHealth::from_metrics(count_neighbors(listing) as usize, average_snr),
    }
}

/// The sum of signal strengths lies within what the count of them allows.
proof fn lemma_rssi_sum_bounds(listing: Seq<NodeInfoView>)
    ensures
        rssi_count(listing) <= listing.len(),
        count_neighbors(listing) <= listing.len(),
        -0x8000_0000 * rssi_count(listing) <= rssi_sum(listing) <= 0x7fff_ffff * rssi_count(
            listing,
        ),
    decreases listing.len(),
{
    if listing.len() > 0 {
        lemma_rssi_sum_bounds(listing.drop_last());
    }
}

/// The number of active nodes is at most the number of nodes.
proof fn lemma_count_active_bound(listing: Seq<NodeInfoView>, now: u64)
    ensures
        count_active(listing, now) <= listing.len(),
    decreases listing.len(),
{
    if listing.len() > 0 {
        lemma_count_active_bound(listing.drop_last(), now);
    }
}

/// The average of numbers of 32 bits is a number of 32 bits.
proof fn lemma_average_in_range(sum: int, count: int)
    requires
        count > 0,
        -0x8000_0000 * count <= sum <= 0x7fff_ffff * count,
    ensures
        -0x8000_0000 <= quotient_towards_zero(sum, count) <= 0x7fff_ffff,
{
    if sum >= 0 {
        assert(0 <= sum / count <= 0x7fff_ffff) by (nonlinear_arith)
            requires
                count > 0,
                0 <= sum <= 0x7fff_ffff * count,
        ;
    } else {
        assert(0 <= (-sum) / count <= 0x8000_0000) by (nonlinear_arith)
            requires
                count > 0,
                0 <= -sum <= 0x8000_0000 * count,
        ;
    }
}

/// The figures of the listed nodes at the time `now`.
pub fn network_stats_of(nodes: &Vec<NodeInfo>, now: u64, average_snr: Option<Ieee32>) -> (r:
    NetworkStats)
    ensures
        r == network_stats(seq_view(nodes@), now, average_snr),
{
    let ghost listing = seq_view(nodes@);
    let mut active_nodes: usize = 0;
    let mut neighbors: usize = 0;
    let mut count: usize = 0;
    let mut sum: i128 = 0;
    let mut i: usize = 0;
    while i < nodes.len()
        invariant
            i <= nodes.len(),
            listing == seq_view(nodes@),
            active_nodes == count_active(listing.take(i as int), now),
            neighbors == count_neighbors(listing.take(i as int)),
            count == rssi_count(listing.take(i as int)),
            sum == rssi_sum(listing.take(i as int)),
        decreases nodes.len() - i,
    {
        let node = &nodes[i];
        proof {
            let next = listing.take(i + 1);
            assert(next.drop_last() =~= listing.take(i as int));
            assert(next.last() == node@);
            lemma_rssi_sum_bounds(next);
            lemma_count_active_bound(next, now);
        }
        if was_heard_recently(node, now) {
            active_nodes = active_nodes + 1;
        }
        if node.snr.is_some() || node.rssi.is_some() {
            neighbors = neighbors + 1;
        }
        if let Some(rssi) = node.rssi {
            count = count + 1;
            sum = sum + rssi as i128;
        }
        i = i + 1;
    }
    proof {
        assert(listing.take(nodes.len() as int) =~= listing);
        lemma_rssi_sum_bounds(listing);
    }
    let average_rssi = if count > 0 {
        proof {
            lemma_average_in_range(sum as int, count as int);
        }
        let average = sum / (count as i128);
        Some(average as i32)
    } else {
        None
    };
    NetworkStats {
        total_nodes: nodes.len(),
        active_nodes,
        neighbors,
        average_snr,
        average_rssi,
        mesh_health: MeshHealth::from_metrics(neighbors, average_snr),
    }
}

/// The figures of the mesh at the time `now`, over the nodes of the state.
pub fn get_network_stats(state: &DeviceState, now: u64, average_snr: Option<Ieee32>) -> (r:
    NetworkStats)
    ensures
        exists|listing: Seq<NodeInfoView>| #[trigger]
            lists_nodes(listing, state@.nodes) && r == network_stats(listing, now, average_snr),
{
    let nodes = get_nodes(state);
    network_stats_of(&nodes, now, average_snr)
}

/// A node as the topology shows it.
#[derive(Debug)]
pub struct MeshNode {
    pub id: String,
    pub num: u32,
    pub name: String,
    pub snr: Option<Ieee32>,
    pub rssi: Option<i32>,
    pub last_heard: Option<u64>,
    pub hops_away: Option<u32>,
}

pub struct MeshNodeView {
    pub id: Seq<char>,
    pub num: u32,
    pub name: Seq<char>,
    pub snr: Option<Ieee32>,
    pub rssi: Option<i32>,
    pub last_heard: Option<u64>,
    pub hops_away: Option<u32>,
}

impl View for MeshNode {
    type V = MeshNodeView;

    open spec fn view(&self) -> MeshNodeView {
        MeshNodeView {
            id: self.id@,
            num: self.num,
            name: self.name@,
            snr: self.snr,
            rssi: self.rssi,
            last_heard: self.last_heard,
            hops_away: self.hops_away,
        }
    }
}

/// A direct link between two nodes.
#[derive(Debug)]
pub struct MeshEdge {
    pub from: String,
    pub to: String,
    pub snr: Option<Ieee32>,
    pub rssi: Option<i32>,
}

pub struct MeshEdgeView {
    pub from: Seq<char>,
    pub to: Seq<char>,
    pub snr: Option<Ieee32>,
    pub rssi: Option<i32>,
}

impl View for MeshEdge {
    type V = MeshEdgeView;

    open spec fn view(&self) -> MeshEdgeView {
        MeshEdgeView { from: self.from@, to: self.to@, snr: self.snr, rssi: self.rssi }
    }
}

/// The mesh as this node sees it.
#[derive(Debug)]
pub struct MeshTopology {
    pub nodes: Vec<MeshNode>,
    pub edges: Vec<MeshEdge>,
    pub total_nodes: usize,
    pub my_node_id: String,
}

pub struct MeshTopologyView {
    pub nodes: Seq<MeshNodeView>,
    pub edges: Seq<MeshEdgeView>,
    pub total_nodes: usize,
    pub my_node_id: Seq<char>,
}

impl View for MeshTopology {
    type V = MeshTopologyView;

    open spec fn view(&self) -> MeshTopologyView {
        MeshTopologyView {
            nodes: seq_view(self.nodes@),
            edges: seq_view(self.edges@),
            total_nodes: self.total_nodes,
            my_node_id: self.my_node_id@,
        }
    }
}

/// The result of a route discovery as it is shown.
#[derive(Debug)]
pub struct TracerouteResult {
    pub destination: String,
    pub hops: Vec<RouteHop>,
    pub total_time_ms: u64,
    pub success: bool,
}

/// The node of the topology that an entry of the state gives. How many hops
/// away a node is, is not known.
pub open spec fn mesh_node_of(entry: NodeEntryView) -> MeshNodeView {
    MeshNodeView {
        id: entry.node.id,
        num: entry.num,
        name: entry.node.user.long_name,
        snr: entry.node.snr,
        rssi: entry.node.rssi,
        last_heard: entry.node.last_heard,
        hops_away: None,
    }
}

/// The link from this node to a node of which a signal reading is known.
pub open spec fn mesh_edge_of(my_node_id: Seq<char>, entry: NodeEntryView) -> MeshEdgeView {
    MeshEdgeView {
        from: my_node_id,
        to: entry.node.id,
        snr: entry.node.snr,
        rssi: entry.node.rssi,
    }
}

/// The links from this node to the listed nodes of which a signal reading
/// is known, in the order of the listing.
pub open spec fn mesh_edges(my_node_id: Seq<char>, entries: Seq<NodeEntryView>) -> Seq<
    MeshEdgeView,
>
    decreases entries.len(),
{
    if entries.len() == 0 {
        Seq::empty()
    } else if has_signal(entries.last().node) {
        mesh_edges(my_node_id, entries.drop_last()).push(
            mesh_edge_of(my_node_id, entries.last()),
        )
    } else {
        mesh_edges(my_node_id, entries.drop_last())
    }
}

/// The topology that a listing of the nodes gives.
pub open spec fn topology(my_node_id: Seq<char>, entries: Seq<NodeEntryView>) -> MeshTopologyView {
    MeshTopologyView {
        nodes: entries.map_values(|e: NodeEntryView| mesh_node_of(e)),
        edges: mesh_edges(my_node_id, entries),
        total_nodes: entries.len() as usize,
        my_node_id,
    }
}

/// The identifier of the local node; the word "unknown" while the local
/// node is not known.
pub open spec fn my_node_id_of(s: crate::state::DeviceStateView) -> Seq<char> {
    match s.my_node_info {
        Some(info) => info.node_id,
        None => "unknown"@,
    }
}

/// The topology that the listed nodes give, seen from the node
/// `my_node_id`.
pub fn topology_of(entries: &Vec<NodeEntry>, my_node_id: String) -> (r: MeshTopology)
    ensures
        r@ == topology(my_node_id@, seq_view(entries@)),
{
    let ghost listed = seq_view(entries@);
    let mut nodes: Vec<MeshNode> = Vec::new();
    let mut edges: Vec<MeshEdge> = Vec::new();
    let mut i: usize = 0;
    assert(seq_view(edges@) =~= mesh_edges(my_node_id@, listed.take(0)));
    while i < entries.len()
        invariant
            i <= entries.len(),
            listed == seq_view(entries@),
            nodes@.len() == i,
            forall|j: int| 0 <= j < i ==> (#[trigger] nodes@[j])@ == mesh_node_of(listed[j]),
            seq_view(edges@) == mesh_edges(my_node_id@, listed.take(i as int)),
        decreases entries.len() - i,
    {
        let entry = &entries[i];
        let ghost earlier = seq_view(edges@);
        proof {
            assert(listed.take(i + 1).drop_last() =~= listed.take(i as int));
            assert(listed.take(i + 1).last() == entry@);
        }
        nodes.push(
            MeshNode {
                id: entry.node.id.clone(),
                num: entry.num,
                name: entry.node.user.long_name.clone(),
                snr: entry.node.snr,
                rssi: entry.node.rssi,
                last_heard: entry.node.last_heard,
                hops_away: None,
            },
        );
        if entry.node.snr.is_some() || entry.node.rssi.is_some() {
            edges.push(
                MeshEdge {
                    from: my_node_id.clone(),
                    to: entry.node.id.clone(),
                    snr: entry.node.snr,
                    rssi: entry.node.rssi,
                },
            );
            assert(seq_view(edges@) =~= earlier.push(mesh_edge_of(my_node_id@, entry@)));
        }
        i = i + 1;
    }
    proof {
        assert(listed.take(entries.len() as int) =~= listed);
        assert(seq_view(nodes@) =~= listed.map_values(|e: NodeEntryView| mesh_node_of(e)));
    }
    MeshTopology { nodes, edges, total_nodes: entries.len(), my_node_id }
}

/// The topology of the mesh as the state shows it: every known node, and a
/// link to each node of which a signal reading is known.
pub fn get_topology(state: &DeviceState) -> (r: MeshTopology)
    ensures
        exists|entries: Seq<NodeEntryView>| #[trigger]
            lists_entries(entries, state@.nodes) && r@ == topology(
                my_node_id_of(state@),
                entries,
            ),
{
    let my_node_id = match &state.my_node_info {
        Some(info) => info.node_id.clone(),
        None => String::from_str("unknown"),
    };
    let entries = node_entries(state);
    topology_of(&entries, my_node_id)
}

} // verus!
