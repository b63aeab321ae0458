//! Telemetry reads: the request to the local device, and the poll of the
//! cache for a sample that is newer than what was there before.

use vstd::prelude::*;
use vstd::std_specs::hash::*;
use crate::outbound::encode_blank_message;
use crate::outbound::DataRequest;
use crate::outbound::DataRequestView;
use crate::outbound::Destination;
use crate::poller::deadline_passed;
use crate::poller::poll_outcome;
use crate::poller::PollStep;
use crate::records::DeviceMetrics;
use crate::state::DeviceState;
use crate::state::DeviceStateView;
use crate::wire::PortKind;

verus! {

broadcast use vstd::std_specs::hash::group_hash_axioms;

/// The kind of telemetry a caller asks for.
#[derive(Clone, Copy, Debug, PartialEq, Eq, Structural)]
pub enum TelemetryType {
    Battery,
    Environment,
    Device,
}

/// The milliseconds between two looks at the cache while telemetry is
/// collected.
pub const TELEMETRY_POLL_MILLIS: u64 = 250;

/// The data request that asks a node for its telemetry: a telemetry message
/// without any field, sent to that node on the primary channel, with the
/// wish for a response.
pub open spec fn telemetry_request_to(node_num: u32) -> DataRequestView {
    DataRequestView {
        payload: Seq::empty(),
        port: PortKind::Telemetry,
        destination: Destination::Node(node_num),
        channel: 0,
        want_ack: false,
        want_response: true,
        echo_response: false,
        reply_id: None,
        emoji: None,
    }
}

/// The request for the telemetry of the local device; none while the local
/// node is not known.
pub open spec fn device_telemetry_request(s: DeviceStateView) -> Option<DataRequestView> {
    match s.my_node_info {
        Some(info) => Some(telemetry_request_to(info.node_num)),
        None => None,
    }
}

/// The device metrics that the cache holds for a node, if any.
pub open spec fn device_metrics_of(s: DeviceStateView, node_num: u32) -> Option<DeviceMetrics> {
    if s.telemetry.contains_key(node_num) {
        s.telemetry[node_num].device_metrics
    } else {
        None
    }
}

/// What a collection of telemetry starts from.
#[derive(Clone, Copy, Debug, PartialEq, Eq, Structural)]
pub struct TelemetryWatch {
    /// The node whose telemetry is collected: the local one.
    pub node_num: u32,
    /// The time at which the collection began, where the cache held device
    /// metrics of that node then; none where it held none, so that the first
    /// sample to arrive counts as new.
    pub initial_time: Option<u64>,
}

/// The start of a collection of telemetry at the time `now`; none while the
/// local node is not known.
pub open spec fn telemetry_watch(s: DeviceStateView, now: u64) -> Option<TelemetryWatch> {
    match s.my_node_info {
        Some(info) => Some(
            TelemetryWatch {
                node_num: info.node_num,
                initial_time: if device_metrics_of(s, info.node_num) is Some {
                    Some(now)
                } else {
                    None
                },
            },
        ),
        None => None,
    }
}

/// The device metrics that count as new to a collection: those of a sample
/// whose own time lies after the beginning of the collection, or of any
/// sample where the collection began with none.
pub open spec fn new_device_metrics(s: DeviceStateView, watch: TelemetryWatch) -> Option<
    DeviceMetrics,
> {
    if s.telemetry.contains_key(watch.node_num) && (watch.initial_time is None
        || s.telemetry[watch.node_num].time > watch.initial_time->0) {
        s.telemetry[watch.node_num].device_metrics
    } else {
        None
    }
}

/// Builds the request that asks the local device for its telemetry.
pub fn request_device_telemetry(state: &DeviceState) -> (r: Option<DataRequest>)
    ensures
        crate::views::opt_view(r) == device_telemetry_request(state@),
{
    match &state.my_node_info {
        Some(info) => Some(
            DataRequest {
                payload: encode_blank_message(),
                port: PortKind::Telemetry,
                destination: Destination::Node(info.node_num),
                channel: 0,
                want_ack: false,
                want_response: true,
                echo_response: false,
                reply_id: None,
                emoji: None,
            },
        ),
        None => None,
    }
}

/// The device metrics of a node as the cache holds them.
pub fn latest_device_metrics(state: &DeviceState, node_num: u32) -> (r: Option<DeviceMetrics>)
    ensures
        r == device_metrics_of(state@, node_num),
{
    match state.telemetry.get(&node_num) {
        Some(sample) => sample.device_metrics,
        None => None,
    }
}

/// Begins a collection of telemetry at the time `now`.
pub fn begin_collect_telemetry(state: &DeviceState, now: u64) -> (r: Option<TelemetryWatch>)
    ensures
        r == telemetry_watch(state@, now),
{
    match &state.my_node_info {
        Some(info) => {
            let initial_time = match latest_device_metrics(state, info.node_num) {
                Some(_) => Some(now),
                None => None,
            };
            Some(TelemetryWatch { node_num: info.node_num, initial_time })
        },
        None => None,
    }
}

/// One look at the cache while telemetry is collected: the poll is over once
/// the deadline has passed; before that, device metrics that are new to the
/// collection end it, and without such the poll waits.
pub fn telemetry_poll(
    state: &DeviceState,
    watch: TelemetryWatch,
    elapsed_secs: u64,
    wait_seconds: u64,
) -> (r: PollStep<DeviceMetrics>)
    ensures
        r == poll_outcome(new_device_metrics(state@, watch), elapsed_secs, wait_seconds),
{
    if deadline_passed(elapsed_secs, wait_seconds) {
        return PollStep::TimedOut;
    }
    match state.telemetry.get(&watch.node_num) {
        Some(sample) => match sample.device_metrics {
            Some(metrics) => {
                let is_new = match watch.initial_time {
                    None => true,
                    Some(initial) => sample.time > initial,
                };
                if is_new {
                    PollStep::Found(metrics)
                } else {
                    PollStep::Wait
                }
            },
            None => PollStep::Wait,
        },
        None => PollStep::Wait,
    }
}

} // verus!
