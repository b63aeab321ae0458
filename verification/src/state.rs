//! The device state store: the latest known value of every tracked entity.

use std::collections::HashMap;
use vstd::prelude::*;
use vstd::std_specs::hash::*;
use vstd::std_specs::iter::IteratorSpec;
use vstd::string::*;
use crate::records::ChannelInfo;
use crate::records::ChannelInfoView;
use crate::records::MyNodeInfo;
use crate::records::MyNodeInfoView;
use crate::records::NodeInfo;
use crate::records::NodeInfoView;
use crate::records::Position;
use crate::records::PositionView;
use crate::records::TelemetryData;
use crate::records::TextMessage;
use crate::records::TextMessageView;
use crate::settings::BluetoothConfig;
use crate::settings::BluetoothConfigView;
use crate::settings::DeviceConfig;
use crate::settings::DeviceConfigView;
use crate::settings::DisplayConfig;
use crate::settings::DisplayConfigView;
use crate::settings::LoraConfig;
use crate::settings::LoraConfigView;
use crate::settings::NetworkConfig;
use crate::settings::NetworkConfigView;
use crate::settings::PositionConfig;
use crate::settings::PositionConfigView;
use crate::settings::PowerConfig;
use crate::views::lemma_map_view_insert;
use crate::views::map_view;
use crate::views::opt_view;
use crate::views::seq_view;

verus! {

broadcast use vstd::std_specs::hash::group_hash_axioms;

/// Channels hold no index twice.
pub open spec fn distinct_channels(s: Seq<ChannelInfoView>) -> bool {
    forall|i: int, j: int| 0 <= i < j < s.len() ==> s[i].index != s[j].index
}

/// No channel of `s` has the index `index`.
pub open spec fn lacks_channel(s: Seq<ChannelInfoView>, index: u32) -> bool {
    forall|i: int| 0 <= i < s.len() ==> (#[trigger] s[i]).index != index
}

/// The channels after one channel definition arrived: the first channel with
/// its index is replaced, and where there is none it is appended.
pub open spec fn upsert_channel(s: Seq<ChannelInfoView>, c: ChannelInfoView) -> Seq<
    ChannelInfoView,
>
    decreases s.len(),
{
    if s.len() == 0 {
        seq![c]
    } else if s[0].index == c.index {
        s.update(0, c)
    } else {
        seq![s[0]] + upsert_channel(s.drop_first(), c)
    }
}

/// The cached device state.
#[derive(Debug)]
pub struct DeviceState {
    pub nodes: HashMap<u32, NodeInfo>,
    pub channels: Vec<ChannelInfo>,
    pub my_node_info: Option<MyNodeInfo>,
    pub positions: HashMap<u32, Position>,
    pub messages: Vec<TextMessage>,
    pub device_config: Option<DeviceConfig>,
    pub position_config: Option<PositionConfig>,
    pub power_config: Option<PowerConfig>,
    pub network_config: Option<NetworkConfig>,
    pub display_config: Option<DisplayConfig>,
    pub lora_config: Option<LoraConfig>,
    pub bluetooth_config: Option<BluetoothConfig>,
    pub telemetry: HashMap<u32, TelemetryData>,
}

/// The device state as mathematics: maps, sequences and optional records.
pub struct DeviceStateView {
    pub nodes: Map<u32, NodeInfoView>,
    pub channels: Seq<ChannelInfoView>,
    pub my_node_info: Option<MyNodeInfoView>,
    pub positions: Map<u32, PositionView>,
    pub messages: Seq<TextMessageView>,
    pub device_config: Option<DeviceConfigView>,
    pub position_config: Option<PositionConfigView>,
    pub power_config: Option<PowerConfig>,
    pub network_config: Option<NetworkConfigView>,
    pub display_config: Option<DisplayConfigView>,
    pub lora_config: Option<LoraConfigView>,
    pub bluetooth_config: Option<BluetoothConfigView>,
    pub telemetry: Map<u32, TelemetryData>,
}

impl DeviceStateView {
    /// The state in which nothing has been heard yet.
    pub open spec fn empty() -> DeviceStateView {
        DeviceStateView {
            nodes: Map::empty(),
            channels: Seq::empty(),
            my_node_info: None,
            positions: Map::empty(),
            messages: Seq::empty(),
            device_config: None,
            position_config: None,
            power_config: None,
            network_config: None,
            display_config: None,
            lora_config: None,
            bluetooth_config: None,
            telemetry: Map::empty(),
        }
    }

    pub open spec fn with_node(self, num: u32, node: NodeInfoView) -> DeviceStateView {
        DeviceStateView { nodes: self.nodes.insert(num, node), ..self }
    }

    pub open spec fn with_position(self, num: u32, position: PositionView) -> DeviceStateView {
        DeviceStateView { positions: self.positions.insert(num, position), ..self }
    }

    pub open spec fn with_message(self, message: TextMessageView) -> DeviceStateView {
        DeviceStateView { messages: self.messages.push(message), ..self }
    }

    pub open spec fn with_channel(self, channel: ChannelInfoView) -> DeviceStateView {
        DeviceStateView { channels: upsert_channel(self.channels, channel), ..self }
    }

    pub open spec fn with_my_node_info(self, info: MyNodeInfoView) -> DeviceStateView {
        DeviceStateView { my_node_info: Some(info), ..self }
    }

    pub open spec fn with_telemetry(self, num: u32, sample: TelemetryData) -> DeviceStateView {
        DeviceStateView { telemetry: self.telemetry.insert(num, sample), ..self }
    }

    /// No channel index occurs twice.
    pub open spec fn well_formed(self) -> bool {
        distinct_channels(self.channels)
    }
}

impl View for DeviceState {
    type V = DeviceStateView;

    open spec fn view(&self) -> DeviceStateView {
        DeviceStateView {
            nodes: map_view(self.nodes@),
            channels: seq_view(self.channels@),
            my_node_info: opt_view(self.my_node_info),
            positions: map_view(self.positions@),
            messages: seq_view(self.messages@),
            device_config: opt_view(self.device_config),
            position_config: opt_view(self.position_config),
            power_config: self.power_config,
            network_config: opt_view(self.network_config),
            display_config: opt_view(self.display_config),
            lora_config: opt_view(self.lora_config),
            bluetooth_config: opt_view(self.bluetooth_config),
            telemetry: self.telemetry@,
        }
    }
}

/// The first channel with the index of `c`, if it stands at `i`, is the one
/// that `upsert_channel` replaces.
pub proof fn lemma_upsert_replaces(s: Seq<ChannelInfoView>, c: ChannelInfoView, i: int)
    requires
        0 <= i < s.len(),
        s[i].index == c.index,
        forall|j: int| 0 <= j < i ==> (#[trigger] s[j]).index != c.index,
    ensures
        upsert_channel(s, c) == s.update(i, c),
    decreases s.len(),
{
    if i == 0 {
    } else {
        let rest = s.drop_first();
        assert(s[0].index != c.index);
        assert forall|j: int| 0 <= j < i - 1 implies (#[trigger] rest[j]).index != c.index by {
            assert(rest[j] == s[j + 1]);
        }
        lemma_upsert_replaces(rest, c, i - 1);
        assert(seq![s[0]] + rest.update(i - 1, c) =~= s.update(i, c));
    }
}

/// Where no channel has the index of `c`, `upsert_channel` appends it.
pub proof fn lemma_upsert_appends(s: Seq<ChannelInfoView>, c: ChannelInfoView)
    requires
        lacks_channel(s, c.index),
    ensures
        upsert_channel(s, c) == s.push(c),
    decreases s.len(),
{
    if s.len() == 0 {
        assert(seq![c] =~= s.push(c));
    } else {
        let rest = s.drop_first();
        assert(s[0].index != c.index);
        assert forall|j: int| 0 <= j < rest.len() implies (#[trigger] rest[j]).index
            != c.index by {
            assert(rest[j] == s[j + 1]);
        }
        lemma_upsert_appends(rest, c);
        assert(seq![s[0]] + rest.push(c) =~= s.push(c));
    }
}

/// `upsert_channel` keeps the channel indices distinct.
pub proof fn lemma_upsert_keeps_distinct(s: Seq<ChannelInfoView>, c: ChannelInfoView)
    requires
        distinct_channels(s),
    ensures
        distinct_channels(upsert_channel(s, c)),
{
    if lacks_channel(s, c.index) {
        lemma_upsert_appends(s, c);
    } else {
        let i = choose_first_channel(s, c.index);
        lemma_upsert_replaces(s, c, i);
    }
}

/// The position of the first channel of `s` with the index `index`.
proof fn choose_first_channel(s: Seq<ChannelInfoView>, index: u32) -> (i: int)
    requires
        !lacks_channel(s, index),
    ensures
        0 <= i < s.len(),
        s[i].index == index,
        forall|j: int| 0 <= j < i ==> (#[trigger] s[j]).index != index,
    decreases s.len(),
{
    if s[0].index == index {
        0
    } else {
        let rest = s.drop_first();
        let k = choose|k: int| 0 <= k < s.len() && (#[trigger] s[k]).index == index;
        assert(rest[k - 1] == s[k]);
        let i = choose_first_channel(rest, index);
        assert forall|j: int| 0 <= j < i + 1 implies (#[trigger] s[j]).index != index by {
            if j > 0 {
                assert(rest[j - 1] == s[j]);
            }
        }
        i + 1
    }
}

/// Channel updates are idempotent by index: of two definitions with one
/// index that arrive one after the other, the second takes the place of the
/// first. The channels are what they would be had the first never arrived,
/// and exactly one of them has that index: the one with the second content.
pub proof fn lemma_channel_update_idempotent_by_index(
    s: Seq<ChannelInfoView>,
    a: ChannelInfoView,
    b: ChannelInfoView,
)
    requires
        distinct_channels(s),
        a.index == b.index,
    ensures
        upsert_channel(upsert_channel(s, a), b) == upsert_channel(s, b),
        upsert_channel(upsert_channel(s, a), b).len() == upsert_channel(s, a).len(),
        exists|i: int|
            0 <= i < upsert_channel(s, b).len() && upsert_channel(s, b)[i] == b && forall|j: int|
                0 <= j < upsert_channel(s, b).len() && j != i ==> (#[trigger] upsert_channel(
                    s,
                    b,
                )[j]).index != b.index,
{
    let once = upsert_channel(s, a);
    if lacks_channel(s, a.index) {
        lemma_upsert_appends(s, a);
        lemma_upsert_appends(s, b);
        let i = s.len() as int;
        assert(once[i].index == b.index);
        lemma_upsert_replaces(once, b, i);
        assert(once.update(i, b) =~= s.push(b));
        assert(upsert_channel(s, b)[i] == b);
    } else {
        let i = choose_first_channel(s, a.index);
        lemma_upsert_replaces(s, a, i);
        lemma_upsert_replaces(s, b, i);
        assert(once[i].index == b.index);
        lemma_upsert_replaces(once, b, i);
        assert(once.update(i, b) =~= s.update(i, b));
        assert(upsert_channel(s, b)[i] == b);
    }
}

/// Some node of `nodes` is `node`.
pub open spec fn holds_node(nodes: Map<u32, NodeInfoView>, node: NodeInfoView) -> bool {
    exists|k: u32| #[trigger] nodes.contains_key(k) && nodes[k] == node
}

/// No node of `nodes` has the identifier `id`.
pub open spec fn no_node_named(nodes: Map<u32, NodeInfoView>, id: Seq<char>) -> bool {
    forall|k: u32| #[trigger] nodes.contains_key(k) ==> nodes[k].id != id
}

impl DeviceState {
    /// The empty state of a fresh connection.
    pub fn new() -> (r: Self)
        ensures
            r@ == DeviceStateView::empty(),
    {
        let r = DeviceState {
            nodes: HashMap::new(),
            channels: Vec::new(),
            my_node_info: None,
            positions: HashMap::new(),
            messages: Vec::new(),
            device_config: None,
            position_config: None,
            power_config: None,
            network_config: None,
            display_config: None,
            lora_config: None,
            bluetooth_config: None,
            telemetry: HashMap::new(),
        };
        assert(r@.nodes =~= Map::empty());
        assert(r@.positions =~= Map::empty());
        assert(r@.channels =~= Seq::empty());
        assert(r@.messages =~= Seq::empty());
        r
    }

    /// Records `node_info` as what is known of node `node_num`, in place of
    /// anything known before.
    pub fn update_node(&mut self, node_num: u32, node_info: NodeInfo)
        ensures
            final(self)@ == old(self)@.with_node(node_num, node_info@),
    {
        proof {
            lemma_map_view_insert(self.nodes@, node_num, node_info);
        }
        self.nodes.insert(node_num, node_info);
    }

    /// Records `position` as the latest fix of node `node_num`.
    pub fn update_position(&mut self, node_num: u32, position: Position)
        ensures
            final(self)@ == old(self)@.with_position(node_num, position@),
    {
        proof {
            lemma_map_view_insert(self.positions@, node_num, position);
        }
        self.positions.insert(node_num, position);
    }

    /// Appends a received message.
    pub fn add_message(&mut self, message: TextMessage)
        ensures
            final(self)@ == old(self)@.with_message(message@),
    {
        self.messages.push(message);
        assert(seq_view(self.messages@) =~= seq_view(old(self).messages@).push(message@));
    }

    /// Records `info` as the local node's identity.
    pub fn set_my_node_info(&mut self, info: MyNodeInfo)
        ensures
            final(self)@ == old(self)@.with_my_node_info(info@),
    {
        self.my_node_info = Some(info);
    }

    /// Records `telemetry` as the latest sample of node `node_num`.
    pub fn update_telemetry(&mut self, node_num: u32, telemetry: TelemetryData)
        ensures
            final(self)@ == old(self)@.with_telemetry(node_num, telemetry),
    {
        self.telemetry.insert(node_num, telemetry);
    }

    /// Records a channel definition: it takes the place of the channel with
    /// its index, or comes last where the index is new.
    pub fn update_channel(&mut self, channel: ChannelInfo)
        ensures
            final(self)@ == old(self)@.with_channel(channel@),
            old(self)@.well_formed() ==> final(self)@.well_formed(),
    {
        proof {
            if old(self)@.well_formed() {
                lemma_upsert_keeps_distinct(old(self)@.channels, channel@);
            }
        }
        let mut i: usize = 0;
        while i < self.channels.len()
            invariant
                i <= self.channels.len(),
                *self == *old(self),
                forall|j: int| 0 <= j < i ==> (#[trigger] self@.channels[j]).index != channel.index,
            decreases self.channels.len() - i,
        {
            if self.channels[i].index == channel.index {
                proof {
                    lemma_upsert_replaces(self@.channels, channel@, i as int);
                }
                self.channels.set(i, channel);
                assert(seq_view(self.channels@) =~= seq_view(old(self).channels@).update(
                    i as int,
                    channel@,
                ));
                return ;
            }
            i = i + 1;
        }
        proof {
            lemma_upsert_appends(self@.channels, channel@);
        }
        self.channels.push(channel);
        assert(seq_view(self.channels@) =~= seq_view(old(self).channels@).push(channel@));
    }

    /// A node whose identifier is `node_id`, if there is one.
    pub fn get_node_by_id(&self, node_id: &str) -> (r: Option<&NodeInfo>)
        ensures
            match r {
                Some(n) => n@.id == node_id@ && holds_node(self@.nodes, n@),
                None => no_node_named(self@.nodes, node_id@),
            },
    {
        let wanted = String::from_str(node_id);
        let ghost all = spec_values_iter(&self.nodes).remaining();
        let ghost mut seen: int = 0;
        for node in it: self.nodes.values()
            invariant
                wanted@ == node_id@,
                it.seq() == all,
                all == spec_values_iter(&self.nodes).remaining(),
                seen == it.index(),
                forall|j: int| 0 <= j < seen ==> (#[trigger] all[j]).id@ != node_id@,
        {
            if node.id == wanted {
                proof {
                    let j = seen;
                    assert(all.unref()[j] == *node);
                    assert(all.unref().to_set().contains(*node));
                    assert(self.nodes@.values().contains(*node));
                    let k = choose|k: u32| #[trigger]
                        self.nodes@.contains_key(k) && self.nodes@[k] == *node;
                    assert(self@.nodes.contains_key(k) && self@.nodes[k] == node@);
                }
                return Some(node);
            }
            proof {
                seen = seen + 1;
            }
        }
        proof {
            assert forall|k: u32| #[trigger] self@.nodes.contains_key(k) implies self@.nodes[k].id
                != node_id@ by {
                let v = self.nodes@[k];
                assert(self.nodes@.contains_key(k));
                assert(self.nodes@.values().contains(v));
                assert(all.unref().to_set().contains(v));
                let j = choose|j: int| 0 <= j < all.unref().len() && all.unref()[j] == v;
                assert(*all[j] == v);
            }
        }
        None
    }

    /// What is known of node `node_num`, if anything.
    pub fn get_node_by_num(&self, node_num: u32) -> (r: Option<&NodeInfo>)
        ensures
            opt_view(r) == (if self@.nodes.contains_key(node_num) {
                Some(self@.nodes[node_num])
            } else {
                None
            }),
    {
        self.nodes.get(&node_num)
    }
}

impl Clone for DeviceState {
    /// A point-in-time copy of the whole state, which shares nothing with
    /// the state it was taken from.
    fn clone(&self) -> (r: Self)
        ensures
            r@ == self@,
    {
        let channels = self.channels.clone();
        let messages = self.messages.clone();
        assert(seq_view(channels@) =~= seq_view(self.channels@));
        assert(seq_view(messages@) =~= seq_view(self.messages@));
        DeviceState {
            nodes: self.nodes.clone(),
            channels,
            my_node_info: self.my_node_info.clone(),
            positions: self.positions.clone(),
            messages,
            device_config: self.device_config.clone(),
            position_config: self.position_config.clone(),
            power_config: self.power_config,
            network_config: self.network_config.clone(),
            display_config: self.display_config.clone(),
            lora_config: self.lora_config.clone(),
            bluetooth_config: self.bluetooth_config.clone(),
            telemetry: self.telemetry.clone(),
        }
    }
}

impl Default for DeviceState {
    fn default() -> (r: Self)
        ensures
            r@ == DeviceStateView::empty(),
    {
        DeviceState::new()
    }
}

} // verus!
