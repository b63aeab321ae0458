//! The records that the device state caches: nodes, channels, positions,
//! messages and telemetry samples, each with its mathematical view.

use vstd::prelude::*;
use crate::views::opt_view;

verus! {

/// A single-precision measurement as the device reported it, kept as the 32
/// bits of its IEEE-754 encoding: one sign bit, eight exponent bits, then
/// twenty-three fraction bits.
#[derive(Clone, Copy, Debug, PartialEq, Eq, Structural)]
pub struct Ieee32 {
    pub bits: u32,
}

impl Ieee32 {
    /// The encoding of positive infinity; every larger pattern with a clear
    /// sign bit is not a number.
    pub const INFINITY_BITS: u32 = 0x7F80_0000;

    /// The encoding of 5.0.
    pub const FIVE_BITS: u32 = 0x40A0_0000;

    pub open spec fn spec_is_positive(self) -> bool {
        0 < self.bits <= Self::INFINITY_BITS
    }

    pub open spec fn spec_exceeds_five(self) -> bool {
        Self::FIVE_BITS < self.bits <= Self::INFINITY_BITS
    }

    pub fn from_bits(bits: u32) -> (r: Ieee32)
        ensures
            r.bits == bits,
    {
        Ieee32 { bits }
    }

    /// Whether the measurement is a number greater than zero. Among the
    /// patterns with a clear sign bit the encoding grows with the value, so
    /// these are the patterns above that of zero up to that of infinity.
    #[verifier::when_used_as_spec(spec_is_positive)]
    pub fn is_positive(self) -> (r: bool)
        ensures
            r == self.spec_is_positive(),
    {
        0 < self.bits && self.bits <= Self::INFINITY_BITS
    }

    /// Whether the measurement is a number greater than 5.0.
    #[verifier::when_used_as_spec(spec_exceeds_five)]
    pub fn exceeds_five(self) -> (r: bool)
        ensures
            r == self.spec_exceeds_five(),
    {
        Self::FIVE_BITS < self.bits && self.bits <= Self::INFINITY_BITS
    }
}

/// What a node says of its owner.
#[derive(Debug)]
pub struct User {
    pub id: String,
    pub long_name: String,
    pub short_name: String,
    pub hw_model: Option<String>,
}

pub struct UserView {
    pub id: Seq<char>,
    pub long_name: Seq<char>,
    pub short_name: Seq<char>,
    pub hw_model: Option<Seq<char>>,
}

impl View for User {
    type V = UserView;

    open spec fn view(&self) -> UserView {
        UserView {
            id: self.id@,
            long_name: self.long_name@,
            short_name: self.short_name@,
            hw_model: opt_view(self.hw_model),
        }
    }
}

impl Clone for User {
    fn clone(&self) -> (r: Self)
        ensures
            r@ == self@,
    {
        User {
            id: self.id.clone(),
            long_name: self.long_name.clone(),
            short_name: self.short_name.clone(),
            hw_model: self.hw_model.clone(),
        }
    }
}

/// A remote participant of the mesh as last seen.
#[derive(Debug)]
pub struct NodeInfo {
    pub id: String,
    pub num: u32,
    pub user: User,
    pub last_heard: Option<u64>,
    pub snr: Option<Ieee32>,
    pub rssi: Option<i32>,
}

pub struct NodeInfoView {
    pub id: Seq<char>,
    pub num: u32,
    pub user: UserView,
    pub last_heard: Option<u64>,
    pub snr: Option<Ieee32>,
    pub rssi: Option<i32>,
}

impl View for NodeInfo {
    type V = NodeInfoView;

    open spec fn view(&self) -> NodeInfoView {
        NodeInfoView {
            id: self.id@,
            num: self.num,
            user: self.user@,
            last_heard: self.last_heard,
            snr: self.snr,
            rssi: self.rssi,
        }
    }
}

impl Clone for NodeInfo {
    fn clone(&self) -> (r: Self)
        ensures
            r@ == self@,
    {
        NodeInfo {
            id: self.id.clone(),
            num: self.num,
            user: self.user.clone(),
            last_heard: self.last_heard,
            snr: self.snr,
            rssi: self.rssi,
        }
    }
}

/// The settings of a channel's module.
#[derive(Clone, Copy, Debug, PartialEq, Eq, Structural)]
pub struct ModuleSettings {
    pub position_precision: u32,
    pub is_muted: bool,
}

/// The settings that the device reported for a channel.
#[derive(Debug)]
pub struct ChannelSettings {
    pub channel_num: u32,
    pub psk: Vec<u8>,
    pub name: String,
    pub id: u32,
    pub uplink_enabled: bool,
    pub downlink_enabled: bool,
    pub module_settings: Option<ModuleSettings>,
}

pub struct ChannelSettingsView {
    pub channel_num: u32,
    pub psk: Seq<u8>,
    pub name: Seq<char>,
    pub id: u32,
    pub uplink_enabled: bool,
    pub downlink_enabled: bool,
    pub module_settings: Option<ModuleSettings>,
}

impl View for ChannelSettings {
    type V = ChannelSettingsView;

    open spec fn view(&self) -> ChannelSettingsView {
        ChannelSettingsView {
            channel_num: self.channel_num,
            psk: self.psk@,
            name: self.name@,
            id: self.id,
            uplink_enabled: self.uplink_enabled,
            downlink_enabled: self.downlink_enabled,
            module_settings: self.module_settings,
        }
    }
}

impl Clone for ChannelSettings {
    fn clone(&self) -> (r: Self)
        ensures
            r@ == self@,
    {
        let psk = self.psk.clone();
        assert(psk@ =~= self.psk@);
        ChannelSettings {
            channel_num: self.channel_num,
            psk,
            name: self.name.clone(),
            id: self.id,
            uplink_enabled: self.uplink_enabled,
            downlink_enabled: self.downlink_enabled,
            module_settings: self.module_settings,
        }
    }
}

/// A logical broadcast domain of the device.
#[derive(Debug)]
pub struct ChannelInfo {
    pub index: u32,
    pub name: String,
    pub role: String,
    pub has_psk: bool,
    pub settings: Option<ChannelSettings>,
}

pub struct ChannelInfoView {
    pub index: u32,
    pub name: Seq<char>,
    pub role: Seq<char>,
    pub has_psk: bool,
    pub settings: Option<ChannelSettingsView>,
}

impl View for ChannelInfo {
    type V = ChannelInfoView;

    open spec fn view(&self) -> ChannelInfoView {
        ChannelInfoView {
            index: self.index,
            name: self.name@,
            role: self.role@,
            has_psk: self.has_psk,
            settings: opt_view(self.settings),
        }
    }
}

impl Clone for ChannelInfo {
    fn clone(&self) -> (r: Self)
        ensures
            r@ == self@,
    {
        ChannelInfo {
            index: self.index,
            name: self.name.clone(),
            role: self.role.clone(),
            has_psk: self.has_psk,
            settings: self.settings.clone(),
        }
    }
}

/// The identity of the node this client is attached to.
#[derive(Debug)]
pub struct MyNodeInfo {
    pub node_num: u32,
    pub node_id: String,
    pub reboot_count: u32,
    pub min_app_version: u32,
    pub device_id: String,
}

pub struct MyNodeInfoView {
    pub node_num: u32,
    pub node_id: Seq<char>,
    pub reboot_count: u32,
    pub min_app_version: u32,
    pub device_id: Seq<char>,
}

impl View for MyNodeInfo {
    type V = MyNodeInfoView;

    open spec fn view(&self) -> MyNodeInfoView {
        MyNodeInfoView {
            node_num: self.node_num,
            node_id: self.node_id@,
            reboot_count: self.reboot_count,
            min_app_version: self.min_app_version,
            device_id: self.device_id@,
        }
    }
}

impl Clone for MyNodeInfo {
    fn clone(&self) -> (r: Self)
        ensures
            r@ == self@,
    {
        MyNodeInfo {
            node_num: self.node_num,
            node_id: self.node_id.clone(),
            reboot_count: self.reboot_count,
            min_app_version: self.min_app_version,
            device_id: self.device_id.clone(),
        }
    }
}

/// The most recent position fix of a node. Latitude and longitude are in
/// units of one ten-millionth of a degree, as the device encodes them.
#[derive(Debug)]
pub struct Position {
    pub node_id: String,
    pub node_num: u32,
    pub latitude_i: i32,
    pub longitude_i: i32,
    pub altitude: Option<i32>,
    pub time: Option<String>,
    pub last_updated: u64,
}

pub struct PositionView {
    pub node_id: Seq<char>,
    pub node_num: u32,
    pub latitude_i: i32,
    pub longitude_i: i32,
    pub altitude: Option<i32>,
    pub time: Option<Seq<char>>,
    pub last_updated: u64,
}

impl View for Position {
    type V = PositionView;

    open spec fn view(&self) -> PositionView {
        PositionView {
            node_id: self.node_id@,
            node_num: self.node_num,
            latitude_i: self.latitude_i,
            longitude_i: self.longitude_i,
            altitude: self.altitude,
            time: opt_view(self.time),
            last_updated: self.last_updated,
        }
    }
}

impl Clone for Position {
    fn clone(&self) -> (r: Self)
        ensures
            r@ == self@,
    {
        Position {
            node_id: self.node_id.clone(),
            node_num: self.node_num,
            latitude_i: self.latitude_i,
            longitude_i: self.longitude_i,
            altitude: self.altitude,
            time: self.time.clone(),
            last_updated: self.last_updated,
        }
    }
}

/// A text message received from the mesh.
#[derive(Debug)]
pub struct TextMessage {
    pub from: String,
    pub from_node: u32,
    pub to: String,
    pub to_node: u32,
    pub channel: u32,
    pub text: String,
    pub time: u64,
    pub snr: Option<Ieee32>,
    pub rssi: Option<i32>,
    pub acknowledged: bool,
}

pub struct TextMessageView {
    pub from: Seq<char>,
    pub from_node: u32,
    pub to: Seq<char>,
    pub to_node: u32,
    pub channel: u32,
    pub text: Seq<char>,
    pub time: u64,
    pub snr: Option<Ieee32>,
    pub rssi: Option<i32>,
    pub acknowledged: bool,
}

impl View for TextMessage {
    type V = TextMessageView;

    open spec fn view(&self) -> TextMessageView {
        TextMessageView {
            from: self.from@,
            from_node: self.from_node,
            to: self.to@,
            to_node: self.to_node,
            channel: self.channel,
            text: self.text@,
            time: self.time,
            snr: self.snr,
            rssi: self.rssi,
            acknowledged: self.acknowledged,
        }
    }
}

impl Clone for TextMessage {
    fn clone(&self) -> (r: Self)
        ensures
            r@ == self@,
    {
        TextMessage {
            from: self.from.clone(),
            from_node: self.from_node,
            to: self.to.clone(),
            to_node: self.to_node,
            channel: self.channel,
            text: self.text.clone(),
            time: self.time,
            snr: self.snr,
            rssi: self.rssi,
            acknowledged: self.acknowledged,
        }
    }
}

/// Power and utilisation figures of a device.
#[derive(Clone, Copy, Debug, PartialEq, Eq, Structural)]
pub struct DeviceMetrics {
    pub battery_level: Option<u32>,
    pub voltage: Option<Ieee32>,
    pub channel_utilization: Option<Ieee32>,
    pub air_util_tx: Option<Ieee32>,
    pub uptime_seconds: Option<u32>,
}

/// Readings of a node's environment sensors.
#[derive(Clone, Copy, Debug, PartialEq, Eq, Structural)]
pub struct EnvironmentMetrics {
    pub temperature: Option<Ieee32>,
    pub relative_humidity: Option<Ieee32>,
    pub barometric_pressure: Option<Ieee32>,
    pub gas_resistance: Option<Ieee32>,
    pub iaq: Option<u32>,
    pub distance: Option<Ieee32>,
    pub lux: Option<Ieee32>,
    pub white_lux: Option<Ieee32>,
    pub ir_lux: Option<Ieee32>,
    pub uv_lux: Option<Ieee32>,
    pub wind_direction: Option<u32>,
    pub wind_speed: Option<Ieee32>,
    pub weight: Option<Ieee32>,
}

/// Readings of a node's particulate sensor.
#[derive(Clone, Copy, Debug, PartialEq, Eq, Structural)]
pub struct AirQualityMetrics {
    pub pm10_standard: Option<u32>,
    pub pm25_standard: Option<u32>,
    pub pm100_standard: Option<u32>,
    pub pm10_environmental: Option<u32>,
    pub pm25_environmental: Option<u32>,
    pub pm100_environmental: Option<u32>,
    pub particles_03um: Option<u32>,
    pub particles_05um: Option<u32>,
    pub particles_10um: Option<u32>,
    pub particles_25um: Option<u32>,
    pub particles_50um: Option<u32>,
    pub particles_100um: Option<u32>,
}

/// One telemetry sample of a node: a time and at most one set of metrics.
#[derive(Clone, Copy, Debug, PartialEq, Eq, Structural)]
pub struct TelemetryData {
    pub node_num: u32,
    pub time: u64,
    pub device_metrics: Option<DeviceMetrics>,
    pub environment_metrics: Option<EnvironmentMetrics>,
    pub air_quality_metrics: Option<AirQualityMetrics>,
}

} // verus!
