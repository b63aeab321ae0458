//! The boundary to the message codec, which is the meshtastic crate: what
//! the payload of a packet decodes to, as plain values. The codec itself is
//! not verified. Each function with an unverified body here makes one call
//! into the codec and moves the fields of what comes back into a type of
//! this library; its contract is taken on trust, and says that the result
//! is the named outcome of decoding, or the part of it that the function
//! reads.

use meshtastic::protobufs;
use meshtastic::protobufs::admin_message::PayloadVariant as AdminVariant;
use meshtastic::protobufs::config::PayloadVariant as ConfigVariant;
use meshtastic::protobufs::routing::Variant as RoutingVariant;
use meshtastic::protobufs::telemetry::Variant as TelemetryVariant;
use meshtastic::Message;
use vstd::prelude::*;
use crate::records::AirQualityMetrics;
use crate::records::DeviceMetrics;
use crate::records::EnvironmentMetrics;
use crate::records::Ieee32;
use crate::names::Ipv4Setup;
use crate::settings::PowerConfig;
use crate::views::opt_view;

verus! {

/// The application a payload belongs to, as far as this library handles it.
#[derive(Clone, Copy, Debug, PartialEq, Eq, Structural)]
pub enum PortKind {
    TextMessage,
    Position,
    Routing,
    Admin,
    Telemetry,
    Other,
}

/// The application that a port number stands for: text, position, routing,
/// admin and telemetry have the numbers 1, 3, 5, 6 and 67.
pub open spec fn port_kind_of(portnum: i32) -> PortKind {
    if portnum == 1 {
        PortKind::TextMessage
    } else if portnum == 3 {
        PortKind::Position
    } else if portnum == 5 {
        PortKind::Routing
    } else if portnum == 6 {
        PortKind::Admin
    } else if portnum == 67 {
        PortKind::Telemetry
    } else {
        PortKind::Other
    }
}

/// Reads the number of a port as the application it stands for. The
/// numbers are those of the protocol; a number that stands for no
/// application, or for one that this library does not handle, reads as
/// `Other`.
pub fn port_kind(portnum: i32) -> (r: PortKind)
    ensures
        r == port_kind_of(portnum),
{
    if portnum == 1 {
        PortKind::TextMessage
    } else if portnum == 3 {
        PortKind::Position
    } else if portnum == 5 {
        PortKind::Routing
    } else if portnum == 6 {
        PortKind::Admin
    } else if portnum == 67 {
        PortKind::Telemetry
    } else {
        PortKind::Other
    }
}

/// The fields of a position message that this library reads.
#[derive(Clone, Copy, Debug, PartialEq, Eq, Structural)]
pub struct PositionFix {
    pub latitude_i: Option<i32>,
    pub longitude_i: Option<i32>,
    pub altitude: Option<i32>,
    pub time: u32,
}

/// What the codec decodes a position payload to; `None` where it rejects
/// the bytes.
pub uninterp spec fn decoded_position(payload: Seq<u8>) -> Option<PositionFix>;

/// `Position::decode` of the codec. Taken on trust: the result holds the
/// latitude, longitude, altitude and time of the decoded message, and is
/// `None` exactly where the codec rejects the bytes; it depends on the bytes
/// alone.
#[verifier::external_body]
pub(crate) fn decode_position(payload: &Vec<u8>) -> (r: Option<PositionFix>)
    ensures
        r == decoded_position(payload@),
{
    match protobufs::Position::decode(payload.as_slice()) {
        Ok(p) => Some(
            PositionFix {
                latitude_i: p.latitude_i,
                longitude_i: p.longitude_i,
                altitude: p.altitude,
                time: p.time,
            },
        ),
        Err(_) => None,
    }
}

/// The temperature, humidity, pressure and gas readings of an environment
/// sample.
#[derive(Clone, Copy, Debug, PartialEq, Eq, Structural)]
pub struct ClimateReadings {
    pub temperature: Option<Ieee32>,
    pub relative_humidity: Option<Ieee32>,
    pub barometric_pressure: Option<Ieee32>,
    pub gas_resistance: Option<Ieee32>,
    pub iaq: Option<u32>,
}

/// The distance and light readings of an environment sample.
#[derive(Clone, Copy, Debug, PartialEq, Eq, Structural)]
pub struct LightReadings {
    pub distance: Option<Ieee32>,
    pub lux: Option<Ieee32>,
    pub white_lux: Option<Ieee32>,
    pub ir_lux: Option<Ieee32>,
    pub uv_lux: Option<Ieee32>,
}

/// The wind and weight readings of an environment sample.
#[derive(Clone, Copy, Debug, PartialEq, Eq, Structural)]
pub struct WindReadings {
    pub wind_direction: Option<u32>,
    pub wind_speed: Option<Ieee32>,
    pub weight: Option<Ieee32>,
}

/// The metrics that a telemetry message carries.
#[derive(Clone, Copy, Debug, PartialEq, Eq, Structural)]
pub enum TelemetryBody {
    /// No metrics, or metrics of a kind this library does not keep.
    Unread,
    Device(DeviceMetrics),
    Environment(EnvironmentMetrics),
    AirQuality(AirQualityMetrics),
}

/// A decoded telemetry message.
#[derive(Clone, Copy, Debug, PartialEq, Eq, Structural)]
pub struct TelemetryFrame {
    pub time: u32,
    pub body: TelemetryBody,
}

/// What the codec decodes a telemetry payload to; `None` where it rejects
/// the bytes.
pub uninterp spec fn decoded_telemetry(payload: Seq<u8>) -> Option<TelemetryFrame>;

/// The time of a decoded telemetry message.
pub open spec fn telemetry_time(frame: Option<TelemetryFrame>) -> Option<u32> {
    match frame {
        Some(f) => Some(f.time),
        None => None,
    }
}

/// The device metrics of a decoded telemetry message.
pub open spec fn telemetry_device(frame: Option<TelemetryFrame>) -> Option<DeviceMetrics> {
    match frame {
        Some(TelemetryFrame { body: TelemetryBody::Device(m), .. }) => Some(m),
        _ => None,
    }
}

/// The environment metrics of a decoded telemetry message.
pub open spec fn telemetry_environment(frame: Option<TelemetryFrame>) -> Option<
    EnvironmentMetrics,
> {
    match frame {
        Some(TelemetryFrame { body: TelemetryBody::Environment(m), .. }) => Some(m),
        _ => None,
    }
}

/// The climate readings among environment metrics.
pub open spec fn climate_of(metrics: Option<EnvironmentMetrics>) -> Option<ClimateReadings> {
    match metrics {
        Some(m) => Some(
            ClimateReadings {
                temperature: m.temperature,
                relative_humidity: m.relative_humidity,
                barometric_pressure: m.barometric_pressure,
                gas_resistance: m.gas_resistance,
                iaq: m.iaq,
            },
        ),
        None => None,
    }
}

/// The distance and light readings among environment metrics.
pub open spec fn light_of(metrics: Option<EnvironmentMetrics>) -> Option<LightReadings> {
    match metrics {
        Some(m) => Some(
            LightReadings {
                distance: m.distance,
                lux: m.lux,
                white_lux: m.white_lux,
                ir_lux: m.ir_lux,
                uv_lux: m.uv_lux,
            },
        ),
        None => None,
    }
}

/// The wind and weight readings among environment metrics.
pub open spec fn wind_of(metrics: Option<EnvironmentMetrics>) -> Option<WindReadings> {
    match metrics {
        Some(m) => Some(
            WindReadings {
                wind_direction: m.wind_direction,
                wind_speed: m.wind_speed,
                weight: m.weight,
            },
        ),
        None => None,
    }
}

/// The air quality metrics of a decoded telemetry message.
pub open spec fn telemetry_air_quality(frame: Option<TelemetryFrame>) -> Option<
    AirQualityMetrics,
> {
    match frame {
        Some(TelemetryFrame { body: TelemetryBody::AirQuality(m), .. }) => Some(m),
        _ => None,
    }
}

/// `Telemetry::decode` of the codec, read for the time of the message.
/// Taken on trust: the result is the time of the decoded message, and `None`
/// exactly where the codec rejects the bytes.
#[verifier::external_body]
pub(crate) fn decode_telemetry_time(payload: &Vec<u8>) -> (r: Option<u32>)
    ensures
        r == telemetry_time(decoded_telemetry(payload@)),
{
    match protobufs::Telemetry::decode(payload.as_slice()) {
        Ok(t) => Some(t.time),
        Err(_) => None,
    }
}

/// `Telemetry::decode` of the codec, read for device metrics. Taken on
/// trust: the result holds the five device metrics of the decoded message,
/// each measurement by the bits of its encoding, and is `None` where the
/// bytes are rejected or the message carries metrics of another kind.
#[verifier::external_body]
pub(crate) fn decode_device_metrics(payload: &Vec<u8>) -> (r: Option<DeviceMetrics>)
    ensures
        r == telemetry_device(decoded_telemetry(payload@)),
{
    match protobufs::Telemetry::decode(payload.as_slice()).map(|t| t.variant) {
        Ok(Some(TelemetryVariant::DeviceMetrics(m))) => Some(
            DeviceMetrics {
                battery_level: m.battery_level,
                voltage: m.voltage.map(|v| Ieee32 { bits: v.to_bits() }),
                channel_utilization: m.channel_utilization.map(|v| Ieee32 { bits: v.to_bits() }),
                air_util_tx: m.air_util_tx.map(|v| Ieee32 { bits: v.to_bits() }),
                uptime_seconds: m.uptime_seconds,
            },
        ),
        _ => None,
    }
}

/// `Telemetry::decode` of the codec, read for the climate readings of
/// environment metrics. Taken on trust: the result holds these five
/// readings of the decoded message, and is `None` where the bytes are
/// rejected or the message carries no environment metrics.
#[verifier::external_body]
pub(crate) fn decode_climate(payload: &Vec<u8>) -> (r: Option<ClimateReadings>)
    ensures
        r == climate_of(telemetry_environment(decoded_telemetry(payload@))),
{
    match protobufs::Telemetry::decode(payload.as_slice()).map(|t| t.variant) {
        Ok(Some(TelemetryVariant::EnvironmentMetrics(m))) => Some(
            ClimateReadings {
                temperature: m.temperature.map(|v| Ieee32 { bits: v.to_bits() }),
                relative_humidity: m.relative_humidity.map(|v| Ieee32 { bits: v.to_bits() }),
                barometric_pressure: m.barometric_pressure.map(|v| Ieee32 { bits: v.to_bits() }),
                gas_resistance: m.gas_resistance.map(|v| Ieee32 { bits: v.to_bits() }),
                iaq: m.iaq,
            },
        ),
        _ => None,
    }
}

/// `Telemetry::decode` of the codec, read for the distance and light
/// readings of environment metrics. Taken on trust: the result holds these
/// five readings of the decoded message, and is `None` where the bytes are
/// rejected or the message carries no environment metrics.
#[verifier::external_body]
pub(crate) fn decode_light(payload: &Vec<u8>) -> (r: Option<LightReadings>)
    ensures
        r == light_of(telemetry_environment(decoded_telemetry(payload@))),
{
    match protobufs::Telemetry::decode(payload.as_slice()).map(|t| t.variant) {
        Ok(Some(TelemetryVariant::EnvironmentMetrics(m))) => Some(
            LightReadings {
                distance: m.distance.map(|v| Ieee32 { bits: v.to_bits() }),
                lux: m.lux.map(|v| Ieee32 { bits: v.to_bits() }),
                white_lux: m.white_lux.map(|v| Ieee32 { bits: v.to_bits() }),
                ir_lux: m.ir_lux.map(|v| Ieee32 { bits: v.to_bits() }),
                uv_lux: m.uv_lux.map(|v| Ieee32 { bits: v.to_bits() }),
            },
        ),
        _ => None,
    }
}

/// `Telemetry::decode` of the codec, read for the wind and weight readings
/// of environment metrics. Taken on trust: the result holds these three
/// readings of the decoded message, and is `None` where the bytes are
/// rejected or the message carries no environment metrics.
#[verifier::external_body]
pub(crate) fn decode_wind(payload: &Vec<u8>) -> (r: Option<WindReadings>)
    ensures
        r == wind_of(telemetry_environment(decoded_telemetry(payload@))),
{
    match protobufs::Telemetry::decode(payload.as_slice()).map(|t| t.variant) {
        Ok(Some(TelemetryVariant::EnvironmentMetrics(m))) => Some(
            WindReadings {
                wind_direction: m.wind_direction,
                wind_speed: m.wind_speed.map(|v| Ieee32 { bits: v.to_bits() }),
                weight: m.weight.map(|v| Ieee32 { bits: v.to_bits() }),
            },
        ),
        _ => None,
    }
}

/// `Telemetry::decode` of the codec, read for air quality metrics. Taken on
/// trust: the result holds the twelve particle counts of the decoded
/// message, and is `None` where the bytes are rejected or the message
/// carries metrics of another kind.
#[verifier::external_body]
pub(crate) fn decode_air_quality(payload: &Vec<u8>) -> (r: Option<AirQualityMetrics>)
    ensures
        r == telemetry_air_quality(decoded_telemetry(payload@)),
{
    match protobufs::Telemetry::decode(payload.as_slice()).map(|t| t.variant) {
        Ok(Some(TelemetryVariant::AirQualityMetrics(m))) => Some(
            AirQualityMetrics {
                pm10_standard: m.pm10_standard, pm25_standard: m.pm25_standard,
                pm100_standard: m.pm100_standard, pm10_environmental: m.pm10_environmental,
                pm25_environmental: m.pm25_environmental,
                pm100_environmental: m.pm100_environmental,
                particles_03um: m.particles_03um, particles_05um: m.particles_05um,
                particles_10um: m.particles_10um, particles_25um: m.particles_25um,
                particles_50um: m.particles_50um, particles_100um: m.particles_100um,
            },
        ),
        _ => None,
    }
}

/// What a routing message says.
#[derive(Debug)]
pub enum RoutingNote {
    /// The codec rejected the bytes, or the message holds nothing.
    Unread,
    RouteRequest,
    /// The nodes on the discovered route, in order.
    RouteReply(Vec<u32>),
    /// The error code of a failed delivery or route discovery.
    ErrorReason(i32),
}

pub enum RoutingNoteView {
    Unread,
    RouteRequest,
    RouteReply(Seq<u32>),
    ErrorReason(i32),
}

impl View for RoutingNote {
    type V = RoutingNoteView;

    open spec fn view(&self) -> RoutingNoteView {
        match self {
            RoutingNote::Unread => RoutingNoteView::Unread,
            RoutingNote::RouteRequest => RoutingNoteView::RouteRequest,
            RoutingNote::RouteReply(route) => RoutingNoteView::RouteReply(route@),
            RoutingNote::ErrorReason(code) => RoutingNoteView::ErrorReason(*code),
        }
    }
}

/// What the codec decodes a routing payload to.
pub uninterp spec fn decoded_routing(payload: Seq<u8>) -> RoutingNoteView;

/// `Routing::decode` of the codec. Taken on trust: the result tells the
/// three kinds of routing message apart, with the route of a reply and the
/// code of an error, and is `Unread` where the codec rejects the bytes or
/// the message holds none of the three.
#[verifier::external_body]
pub(crate) fn decode_routing(payload: &Vec<u8>) -> (r: RoutingNote)
    ensures
        r@ == decoded_routing(payload@),
{
    match protobufs::Routing::decode(payload.as_slice()).map(|m| m.variant) {
        Ok(Some(RoutingVariant::RouteRequest(_))) => RoutingNote::RouteRequest,
        Ok(Some(RoutingVariant::RouteReply(d))) => RoutingNote::RouteReply(d.route),
        Ok(Some(RoutingVariant::ErrorReason(code))) => RoutingNote::ErrorReason(code),
        _ => RoutingNote::Unread,
    }
}

/// The device category as the device reports it.
#[derive(Debug)]
pub struct DeviceSettings {
    pub role: i32,
    pub button_gpio: u32,
    pub buzzer_gpio: u32,
    pub rebroadcast_mode: i32,
    pub node_info_broadcast_secs: u32,
    pub tzdef: String,
    pub disable_triple_click: bool,
}

pub struct DeviceSettingsView {
    pub role: i32,
    pub button_gpio: u32,
    pub buzzer_gpio: u32,
    pub rebroadcast_mode: i32,
    pub node_info_broadcast_secs: u32,
    pub tzdef: Seq<char>,
    pub disable_triple_click: bool,
}

impl View for DeviceSettings {
    type V = DeviceSettingsView;

    open spec fn view(&self) -> DeviceSettingsView {
        DeviceSettingsView {
            role: self.role,
            button_gpio: self.button_gpio,
            buzzer_gpio: self.buzzer_gpio,
            rebroadcast_mode: self.rebroadcast_mode,
            node_info_broadcast_secs: self.node_info_broadcast_secs,
            tzdef: self.tzdef@,
            disable_triple_click: self.disable_triple_click,
        }
    }
}

/// The position category as the device reports it.
#[derive(Clone, Copy, Debug, PartialEq, Eq, Structural)]
pub struct PositionSettings {
    pub position_broadcast_secs: u32,
    pub position_broadcast_smart_enabled: bool,
    pub fixed_position: bool,
    pub gps_mode: i32,
}

/// The network category as the device reports it.
#[derive(Debug)]
pub struct NetworkSettings {
    pub wifi_enabled: bool,
    pub wifi_ssid: String,
    pub wifi_psk: String,
    pub ntp_server: String,
    pub eth_enabled: bool,
    pub ipv4_config: Option<Ipv4Setup>,
}

pub struct NetworkSettingsView {
    pub wifi_enabled: bool,
    pub wifi_ssid: Seq<char>,
    pub wifi_psk: Seq<char>,
    pub ntp_server: Seq<char>,
    pub eth_enabled: bool,
    pub ipv4_config: Option<Ipv4Setup>,
}

impl View for NetworkSettings {
    type V = NetworkSettingsView;

    open spec fn view(&self) -> NetworkSettingsView {
        NetworkSettingsView {
            wifi_enabled: self.wifi_enabled,
            wifi_ssid: self.wifi_ssid@,
            wifi_psk: self.wifi_psk@,
            ntp_server: self.ntp_server@,
            eth_enabled: self.eth_enabled,
            ipv4_config: self.ipv4_config,
        }
    }
}

/// The display category as the device reports it.
#[derive(Clone, Copy, Debug, PartialEq, Eq, Structural)]
pub struct DisplaySettings {
    pub screen_on_secs: u32,
    pub gps_format: i32,
    pub auto_screen_carousel_secs: u32,
    pub compass_north_top: bool,
    pub flip_screen: bool,
    pub units: i32,
    pub displaymode: i32,
    pub heading_bold: bool,
    pub wake_on_tap_or_motion: bool,
}

/// The radio category as the device reports it.
#[derive(Clone, Copy, Debug, PartialEq, Eq, Structural)]
pub struct LoraSettings {
    pub use_preset: bool,
    pub modem_preset: i32,
    pub bandwidth: u32,
    pub spread_factor: u32,
    pub coding_rate: u32,
    pub frequency_offset: Ieee32,
    pub region: i32,
    pub hop_limit: u32,
    pub tx_enabled: bool,
    pub tx_power: i32,
    pub channel_num: u32,
    pub ignore_mqtt: bool,
}

/// The Bluetooth category as the device reports it.
#[derive(Clone, Copy, Debug, PartialEq, Eq, Structural)]
pub struct BluetoothSettings {
    pub enabled: bool,
    pub mode: i32,
    pub fixed_pin: u32,
}

/// The answer to a configuration read, by category.
#[derive(Debug)]
pub enum ConfigResponse {
    /// The codec rejected the bytes, the message is no answer to a
    /// configuration read, or its category is one that this library does not
    /// keep.
    Unread,
    Device(DeviceSettings),
    Position(PositionSettings),
    Power(PowerConfig),
    Network(NetworkSettings),
    Display(DisplaySettings),
    Lora(LoraSettings),
    Bluetooth(BluetoothSettings),
}

pub enum ConfigResponseView {
    Unread,
    Device(DeviceSettingsView),
    Position(PositionSettings),
    Power(PowerConfig),
    Network(NetworkSettingsView),
    Display(DisplaySettings),
    Lora(LoraSettings),
    Bluetooth(BluetoothSettings),
}

impl View for ConfigResponse {
    type V = ConfigResponseView;

    open spec fn view(&self) -> ConfigResponseView {
        match self {
            ConfigResponse::Unread => ConfigResponseView::Unread,
            ConfigResponse::Device(c) => ConfigResponseView::Device(c@),
            ConfigResponse::Position(c) => ConfigResponseView::Position(*c),
            ConfigResponse::Power(c) => ConfigResponseView::Power(*c),
            ConfigResponse::Network(c) => ConfigResponseView::Network(c@),
            ConfigResponse::Display(c) => ConfigResponseView::Display(*c),
            ConfigResponse::Lora(c) => ConfigResponseView::Lora(*c),
            ConfigResponse::Bluetooth(c) => ConfigResponseView::Bluetooth(*c),
        }
    }
}

/// What the codec decodes an admin payload to, read as the answer to a
/// configuration read.
pub uninterp spec fn decoded_config_response(payload: Seq<u8>) -> ConfigResponseView;

pub open spec fn response_device(response: ConfigResponseView) -> Option<DeviceSettingsView> {
    match response {
        ConfigResponseView::Device(c) => Some(c),
        _ => None,
    }
}

pub open spec fn response_position(response: ConfigResponseView) -> Option<PositionSettings> {
    match response {
        ConfigResponseView::Position(c) => Some(c),
        _ => None,
    }
}

pub open spec fn response_power(response: ConfigResponseView) -> Option<PowerConfig> {
    match response {
        ConfigResponseView::Power(c) => Some(c),
        _ => None,
    }
}

pub open spec fn response_network(response: ConfigResponseView) -> Option<NetworkSettingsView> {
    match response {
        ConfigResponseView::Network(c) => Some(c),
        _ => None,
    }
}

pub open spec fn response_display(response: ConfigResponseView) -> Option<DisplaySettings> {
    match response {
        ConfigResponseView::Display(c) => Some(c),
        _ => None,
    }
}

pub open spec fn response_lora(response: ConfigResponseView) -> Option<LoraSettings> {
    match response {
        ConfigResponseView::Lora(c) => Some(c),
        _ => None,
    }
}

pub open spec fn response_bluetooth(response: ConfigResponseView) -> Option<BluetoothSettings> {
    match response {
        ConfigResponseView::Bluetooth(c) => Some(c),
        _ => None,
    }
}

/// `AdminMessage::decode` of the codec, read for a device configuration.
/// Taken on trust: the result holds the seven fields that this library
/// keeps of the device configuration in the decoded answer, and is `None`
/// where the bytes are rejected or are no answer with that category.
#[verifier::external_body]
pub(crate) fn decode_device_settings(payload: &Vec<u8>) -> (r: Option<DeviceSettings>)
    ensures
        opt_view(r) == response_device(decoded_config_response(payload@)),
{
    match protobufs::AdminMessage::decode(payload.as_slice()).map(|m| m.payload_variant) {
        Ok(Some(AdminVariant::GetConfigResponse(protobufs::Config {
            payload_variant: Some(ConfigVariant::Device(c)),
        }))) => Some(DeviceSettings {
            role: c.role, button_gpio: c.button_gpio, buzzer_gpio: c.buzzer_gpio,
            rebroadcast_mode: c.rebroadcast_mode,
            node_info_broadcast_secs: c.node_info_broadcast_secs,
            tzdef: c.tzdef, disable_triple_click: c.disable_triple_click,
        }),
        _ => None,
    }
}

/// `AdminMessage::decode` of the codec, read for a position configuration.
/// Taken on trust: the result holds the four fields that this library keeps
/// of the position configuration in the decoded answer, and is `None` where
/// the bytes are rejected or are no answer with that category.
#[verifier::external_body]
pub(crate) fn decode_position_settings(payload: &Vec<u8>) -> (r: Option<PositionSettings>)
    ensures
        r == response_position(decoded_config_response(payload@)),
{
    match protobufs::AdminMessage::decode(payload.as_slice()).map(|m| m.payload_variant) {
        Ok(Some(AdminVariant::GetConfigResponse(protobufs::Config {
            payload_variant: Some(ConfigVariant::Position(c)),
        }))) => Some(PositionSettings {
            position_broadcast_secs: c.position_broadcast_secs,
            position_broadcast_smart_enabled: c.position_broadcast_smart_enabled,
            fixed_position: c.fixed_position,
            gps_mode: c.gps_mode,
        }),
        _ => None,
    }
}

/// `AdminMessage::decode` of the codec, read for a power configuration.
/// Taken on trust: the result holds the seven fields that this library
/// keeps of the power configuration in the decoded answer, and is `None`
/// where the bytes are rejected or are no answer with that category.
#[verifier::external_body]
pub(crate) fn decode_power_settings(payload: &Vec<u8>) -> (r: Option<PowerConfig>)
    ensures
        r == response_power(decoded_config_response(payload@)),
{
    match protobufs::AdminMessage::decode(payload.as_slice()).map(|m| m.payload_variant) {
        Ok(Some(AdminVariant::GetConfigResponse(protobufs::Config {
            payload_variant: Some(ConfigVariant::Power(c)),
        }))) => Some(PowerConfig {
            is_power_saving: c.is_power_saving,
            on_battery_shutdown_after_secs: c.on_battery_shutdown_after_secs,
            adc_multiplier_override: Ieee32 { bits: c.adc_multiplier_override.to_bits() },
            wait_bluetooth_secs: c.wait_bluetooth_secs,
            sds_secs: c.sds_secs, ls_secs: c.ls_secs, min_wake_secs: c.min_wake_secs,
        }),
        _ => None,
    }
}

/// `AdminMessage::decode` of the codec, read for a network configuration.
/// Taken on trust: the result holds the six fields that this library keeps
/// of the network configuration in the decoded answer, and is `None` where
/// the bytes are rejected or are no answer with that category.
#[verifier::external_body]
pub(crate) fn decode_network_settings(payload: &Vec<u8>) -> (r: Option<NetworkSettings>)
    ensures
        opt_view(r) == response_network(decoded_config_response(payload@)),
{
    match protobufs::AdminMessage::decode(payload.as_slice()).map(|m| m.payload_variant) {
        Ok(Some(AdminVariant::GetConfigResponse(protobufs::Config {
            payload_variant: Some(ConfigVariant::Network(c)),
        }))) => Some(NetworkSettings {
            wifi_enabled: c.wifi_enabled, wifi_ssid: c.wifi_ssid, wifi_psk: c.wifi_psk,
            ntp_server: c.ntp_server, eth_enabled: c.eth_enabled,
            ipv4_config: c.ipv4_config.map(|a| {
                Ipv4Setup { ip: a.ip, gateway: a.gateway, subnet: a.subnet, dns: a.dns }
            }),
        }),
        _ => None,
    }
}

/// `AdminMessage::decode` of the codec, read for a display configuration.
/// Taken on trust: the result holds the nine fields that this library keeps
/// of the display configuration in the decoded answer, and is `None` where
/// the bytes are rejected or are no answer with that category.
#[verifier::external_body]
#[allow(deprecated)]
pub(crate) fn decode_display_settings(payload: &Vec<u8>) -> (r: Option<DisplaySettings>)
    ensures
        r == response_display(decoded_config_response(payload@)),
{
    match protobufs::AdminMessage::decode(payload.as_slice()).map(|m| m.payload_variant) {
        Ok(Some(AdminVariant::GetConfigResponse(protobufs::Config {
            payload_variant: Some(ConfigVariant::Display(c)),
        }))) => Some(DisplaySettings {
            screen_on_secs: c.screen_on_secs, gps_format: c.gps_format,
            auto_screen_carousel_secs: c.auto_screen_carousel_secs,
            compass_north_top: c.compass_north_top, flip_screen: c.flip_screen,
            units: c.units, displaymode: c.displaymode, heading_bold: c.heading_bold,
            wake_on_tap_or_motion: c.wake_on_tap_or_motion,
        }),
        _ => None,
    }
}

/// `AdminMessage::decode` of the codec, read for a radio configuration.
/// Taken on trust: the result holds the twelve fields that this library
/// keeps of the radio configuration in the decoded answer, and is `None`
/// where the bytes are rejected or are no answer with that category.
#[verifier::external_body]
pub(crate) fn decode_lora_settings(payload: &Vec<u8>) -> (r: Option<LoraSettings>)
    ensures
        r == response_lora(decoded_config_response(payload@)),
{
    match protobufs::AdminMessage::decode(payload.as_slice()).map(|m| m.payload_variant) {
        Ok(Some(AdminVariant::GetConfigResponse(protobufs::Config {
            payload_variant: Some(ConfigVariant::Lora(c)),
        }))) => Some(LoraSettings {
            use_preset: c.use_preset, modem_preset: c.modem_preset, bandwidth: c.bandwidth,
            spread_factor: c.spread_factor, coding_rate: c.coding_rate,
            frequency_offset: Ieee32 { bits: c.frequency_offset.to_bits() },
            region: c.region, hop_limit: c.hop_limit, tx_enabled: c.tx_enabled,
            tx_power: c.tx_power, channel_num: c.channel_num, ignore_mqtt: c.ignore_mqtt,
        }),
        _ => None,
    }
}

/// `AdminMessage::decode` of the codec, read for a Bluetooth configuration.
/// Taken on trust: the result holds the three fields of the Bluetooth
/// configuration in the decoded answer, and is `None` where the bytes are
/// rejected or are no answer with that category.
#[verifier::external_body]
pub(crate) fn decode_bluetooth_settings(payload: &Vec<u8>) -> (r: Option<BluetoothSettings>)
    ensures
        r == response_bluetooth(decoded_config_response(payload@)),
{
    match protobufs::AdminMessage::decode(payload.as_slice()).map(|m| m.payload_variant) {
        Ok(Some(AdminVariant::GetConfigResponse(protobufs::Config {
            payload_variant: Some(ConfigVariant::Bluetooth(c)),
        }))) => Some(BluetoothSettings { enabled: c.enabled, mode: c.mode, fixed_pin: c.fixed_pin }),
        _ => None,
    }
}

} // verus!
