//! What the state says of the radio itself, and short texts for what it
//! says of others.

use vstd::prelude::*;
use vstd::std_specs::hash::*;
use vstd::string::*;
use crate::records::TelemetryData;
use crate::state::DeviceState;
use crate::state::DeviceStateView;
use crate::text::decimal;
use crate::text::hex8;
use crate::text::node_id_string;
use crate::text::push_decimal;

verus! {

broadcast use vstd::std_specs::hash::group_hash_axioms;

/// What is known of the connected radio.
#[derive(Debug)]
pub struct RadioInfo {
    pub firmware_version: String,
    pub hardware_model: String,
    pub region: String,
    pub node_id: String,
    pub node_num: u32,
    pub has_gps: bool,
    pub num_channels: usize,
}

pub struct RadioInfoView {
    pub firmware_version: Seq<char>,
    pub hardware_model: Seq<char>,
    pub region: Seq<char>,
    pub node_id: Seq<char>,
    pub node_num: u32,
    pub has_gps: bool,
    pub num_channels: usize,
}

impl View for RadioInfo {
    type V = RadioInfoView;

    open spec fn view(&self) -> RadioInfoView {
        RadioInfoView {
            firmware_version: self.firmware_version@,
            hardware_model: self.hardware_model@,
            region: self.region@,
            node_id: self.node_id@,
            node_num: self.node_num,
            has_gps: self.has_gps,
            num_channels: self.num_channels,
        }
    }
}

/// A version number of the form major times ten thousand plus minor times a
/// hundred plus patch, written as major, minor and patch with dots between.
pub open spec fn version_text(version: u32) -> Seq<char> {
    decimal((version / 10000) as nat) + seq!['.'] + decimal(((version % 10000) / 100) as nat)
        + seq!['.'] + decimal((version % 100) as nat)
}

/// The hardware model of the local node, where the node itself is among the
/// known nodes and names one.
pub open spec fn local_hardware_model(s: DeviceStateView) -> Option<Seq<char>> {
    match s.my_node_info {
        Some(info) => if s.nodes.contains_key(info.node_num) {
            s.nodes[info.node_num].user.hw_model
        } else {
            None
        },
        None => None,
    }
}

/// What the state says of the radio; the word "Unknown" stands for each
/// text that it does not know.
pub open spec fn radio_info_of(s: DeviceStateView) -> RadioInfoView {
    RadioInfoView {
        firmware_version: match s.my_node_info {
            Some(info) => version_text(info.min_app_version),
            None => "Unknown"@,
        },
        hardware_model: match local_hardware_model(s) {
            Some(model) => model,
            None => "Unknown"@,
        },
        region: match s.lora_config {
            Some(config) => config.region,
            None => "Unknown"@,
        },
        node_id: match s.my_node_info {
            Some(info) => info.node_id,
            None => "Unknown"@,
        },
        node_num: match s.my_node_info {
            Some(info) => info.node_num,
            None => 0,
        },
        has_gps: match s.position_config {
            Some(config) => config.gps_enabled,
            None => false,
        },
        num_channels: s.channels.len() as usize,
    }
}

/// Writes a version number with dots.
pub fn format_version(version: u32) -> (s: String)
    ensures
        s@ == version_text(version),
{
    let mut s = String::new();
    push_decimal(&mut s, (version / 10000) as u64);
    s.append(".");
    push_decimal(&mut s, ((version % 10000) / 100) as u64);
    s.append(".");
    push_decimal(&mut s, (version % 100) as u64);
    proof {
        reveal_strlit(".");
        assert("."@ =~= seq!['.']);
        assert(s@ =~= version_text(version));
    }
    s
}

/// Gathers what the state says of the radio.
pub fn radio_info(state: &DeviceState) -> (r: RadioInfo)
    ensures
        r@ == radio_info_of(state@),
{
    let firmware_version = match &state.my_node_info {
        Some(info) => format_version(info.min_app_version),
        None => String::from_str("Unknown"),
    };
    let model = match &state.my_node_info {
        Some(info) => match state.nodes.get(&info.node_num) {
            Some(node) => node.user.hw_model.clone(),
            None => None,
        },
        None => None,
    };
    let hardware_model = match model {
        Some(model) => model,
        None => String::from_str("Unknown"),
    };
    let region = match &state.lora_config {
        Some(config) => config.region.clone(),
        None => String::from_str("Unknown"),
    };
    let (node_id, node_num) = match &state.my_node_info {
        Some(info) => (info.node_id.clone(), info.node_num),
        None => (String::from_str("Unknown"), 0),
    };
    let has_gps = match &state.position_config {
        Some(config) => config.gps_enabled,
        None => false,
    };
    RadioInfo {
        firmware_version,
        hardware_model,
        region,
        node_id,
        node_num,
        has_gps,
        num_channels: state.channels.len(),
    }
}

/// How long ago a node was heard, in the largest of seconds, minutes and
/// hours that the time fills. A node heard at a later time than `now` was
/// heard zero seconds ago.
pub open spec fn ago_text(now: u64, heard: u64) -> Seq<char> {
    let ago = if heard >= now {
        0nat
    } else {
        (now - heard) as nat
    };
    if ago < 60 {
        decimal(ago) + "s ago"@
    } else if ago < 3600 {
        decimal(ago / 60) + "m ago"@
    } else {
        decimal(ago / 3600) + "h ago"@
    }
}

/// Writes how long ago a node was heard.
pub fn heard_ago(now: u64, heard: u64) -> (s: String)
    ensures
        s@ == ago_text(now, heard),
{
    let ago = if heard >= now {
        0
    } else {
        now - heard
    };
    let mut s = String::new();
    if ago < 60 {
        push_decimal(&mut s, ago);
        s.append("s ago");
    } else if ago < 3600 {
        push_decimal(&mut s, ago / 60);
        s.append("m ago");
    } else {
        push_decimal(&mut s, ago / 3600);
        s.append("h ago");
    }
    assert(s@ =~= ago_text(now, heard));
    s
}

/// The kinds of metrics that a telemetry sample holds, by name.
pub open spec fn metrics_label(sample: TelemetryData) -> Seq<char> {
    if sample.device_metrics is Some && sample.environment_metrics is Some {
        "Device, Environment"@
    } else if sample.device_metrics is Some {
        "Device"@
    } else if sample.environment_metrics is Some {
        "Environment"@
    } else {
        "None"@
    }
}

/// Names the kinds of metrics that a telemetry sample holds.
pub fn telemetry_label(sample: &TelemetryData) -> (s: String)
    ensures
        s@ == metrics_label(*sample),
{
    if sample.device_metrics.is_some() && sample.environment_metrics.is_some() {
        String::from_str("Device, Environment")
    } else if sample.device_metrics.is_some() {
        String::from_str("Device")
    } else if sample.environment_metrics.is_some() {
        String::from_str("Environment")
    } else {
        String::from_str("None")
    }
}

/// The name of the destination of a message: the identifier of the node, or
/// the word "Broadcast".
pub open spec fn destination_text(destination: Option<u32>) -> Seq<char> {
    match destination {
        Some(node) => hex8(node),
        None => "Broadcast"@,
    }
}

/// Names the destination of a message.
pub fn destination_label(destination: Option<u32>) -> (s: String)
    ensures
        s@ == destination_text(destination),
{
    match destination {
        Some(node) => node_id_string(node),
        None => String::from_str("Broadcast"),
    }
}

} // verus!
