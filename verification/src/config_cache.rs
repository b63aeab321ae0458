//! The configuration cache: what an answer to a configuration read does to
//! the device state.

use vstd::prelude::*;
use vstd::string::*;
use crate::names::device_role_name;
use crate::names::device_role_text;
use crate::names::display_mode_name;
use crate::names::display_mode_text;
use crate::names::display_units_name;
use crate::names::display_units_text;
use crate::names::gps_format_name;
use crate::names::gps_format_text;
use crate::names::gps_mode_enabled;
use crate::names::gps_mode_is_on;
use crate::names::gps_mode_name;
use crate::names::gps_mode_text;
use crate::names::ipv4_setup_name;
use crate::names::ipv4_setup_text;
use crate::names::modem_preset_name;
use crate::names::modem_preset_text;
use crate::names::pairing_mode_name;
use crate::names::pairing_mode_text;
use crate::names::rebroadcast_mode_name;
use crate::names::rebroadcast_mode_text;
use crate::names::region_name;
use crate::names::region_text;
use crate::settings::BluetoothConfig;
use crate::settings::BluetoothConfigView;
use crate::settings::DeviceConfig;
use crate::settings::DeviceConfigView;
use crate::settings::DisplayConfig;
use crate::settings::DisplayConfigView;
use crate::settings::LoraConfig;
use crate::settings::LoraConfigView;
use crate::settings::NetworkConfig;
use crate::settings::NetworkConfigView;
use crate::settings::PositionConfig;
use crate::settings::PositionConfigView;
use crate::state::DeviceState;
use crate::state::DeviceStateView;
use crate::wire::decode_bluetooth_settings;
use crate::wire::decode_device_settings;
use crate::wire::decode_display_settings;
use crate::wire::decode_lora_settings;
use crate::wire::decode_network_settings;
use crate::wire::decode_position_settings;
use crate::wire::decode_power_settings;
use crate::wire::decoded_config_response;
use crate::wire::BluetoothSettings;
use crate::wire::ConfigResponse;
use crate::wire::ConfigResponseView;
use crate::wire::DeviceSettings;
use crate::wire::DeviceSettingsView;
use crate::wire::DisplaySettings;
use crate::wire::LoraSettings;
use crate::wire::NetworkSettings;
use crate::wire::NetworkSettingsView;
use crate::wire::PositionSettings;

verus! {

/// The device configuration record of a report of the device: the role and
/// the rebroadcast mode by name, and an empty time zone as none.
pub open spec fn device_config_record(s: DeviceSettingsView) -> DeviceConfigView {
    DeviceConfigView {
        role: device_role_name(s.role),
        button_gpio: s.button_gpio,
        buzzer_gpio: s.buzzer_gpio,
        rebroadcast_mode: rebroadcast_mode_name(s.rebroadcast_mode),
        node_info_broadcast_secs: s.node_info_broadcast_secs,
        tzdef: if s.tzdef.len() == 0 {
            None
        } else {
            Some(s.tzdef)
        },
        disable_triple_click: s.disable_triple_click,
    }
}

/// The position configuration record of a report of the device: the GPS
/// counts as enabled in every mode but the disabled one.
pub open spec fn position_config_record(s: PositionSettings) -> PositionConfigView {
    PositionConfigView {
        position_broadcast_secs: s.position_broadcast_secs,
        position_broadcast_smart_enabled: s.position_broadcast_smart_enabled,
        fixed_position: s.fixed_position,
        gps_enabled: gps_mode_is_on(s.gps_mode),
        gps_mode: gps_mode_name(s.gps_mode),
    }
}

/// The network configuration record of a report of the device.
pub open spec fn network_config_record(s: NetworkSettingsView) -> NetworkConfigView {
    NetworkConfigView {
        wifi_enabled: s.wifi_enabled,
        wifi_ssid: s.wifi_ssid,
        wifi_psk: s.wifi_psk,
        ntp_server: s.ntp_server,
        eth_enabled: s.eth_enabled,
        ipv4_config: match s.ipv4_config {
            Some(setup) => Some(ipv4_setup_name(setup)),
            None => None,
        },
    }
}

/// The display configuration record of a report of the device.
pub open spec fn display_config_record(s: DisplaySettings) -> DisplayConfigView {
    DisplayConfigView {
        screen_on_secs: s.screen_on_secs,
        gps_format: gps_format_name(s.gps_format),
        auto_screen_carousel_secs: s.auto_screen_carousel_secs,
        compass_north_top: s.compass_north_top,
        flip_screen: s.flip_screen,
        units: display_units_name(s.units),
        displaymode: display_mode_name(s.displaymode),
        heading_bold: s.heading_bold,
        wake_on_tap_or_motion: s.wake_on_tap_or_motion,
    }
}

/// The radio configuration record of a report of the device.
pub open spec fn lora_config_record(s: LoraSettings) -> LoraConfigView {
    LoraConfigView {
        use_preset: s.use_preset,
        modem_preset: modem_preset_name(s.modem_preset),
        bandwidth: s.bandwidth,
        spread_factor: s.spread_factor,
        coding_rate: s.coding_rate,
        frequency_offset: s.frequency_offset,
        region: region_name(s.region),
        hop_limit: s.hop_limit,
        tx_enabled: s.tx_enabled,
        tx_power: s.tx_power,
        channel_num: s.channel_num,
        ignore_mqtt: s.ignore_mqtt,
    }
}

/// The Bluetooth configuration record of a report of the device. The device
/// does not report whether it logs, so that is kept as off.
pub open spec fn bluetooth_config_record(s: BluetoothSettings) -> BluetoothConfigView {
    BluetoothConfigView {
        enabled: s.enabled,
        mode: pairing_mode_name(s.mode),
        fixed_pin: s.fixed_pin,
        device_logging_enabled: false,
    }
}

/// The state after an answer to a configuration read: the record of its
/// category is replaced as a whole, and nothing else changes.
pub open spec fn with_config(s: DeviceStateView, response: ConfigResponseView) -> DeviceStateView {
    match response {
        ConfigResponseView::Unread => s,
        ConfigResponseView::Device(c) => DeviceStateView {
            device_config: Some(device_config_record(c)),
            ..s
        },
        ConfigResponseView::Position(c) => DeviceStateView {
            position_config: Some(position_config_record(c)),
            ..s
        },
        ConfigResponseView::Power(c) => DeviceStateView { power_config: Some(c), ..s },
        ConfigResponseView::Network(c) => DeviceStateView {
            network_config: Some(network_config_record(c)),
            ..s
        },
        ConfigResponseView::Display(c) => DeviceStateView {
            display_config: Some(display_config_record(c)),
            ..s
        },
        ConfigResponseView::Lora(c) => DeviceStateView {
            lora_config: Some(lora_config_record(c)),
            ..s
        },
        ConfigResponseView::Bluetooth(c) => DeviceStateView {
            bluetooth_config: Some(bluetooth_config_record(c)),
            ..s
        },
    }
}

/// Builds the device configuration record.
pub fn build_device_config(s: DeviceSettings) -> (r: DeviceConfig)
    ensures
        r@ == device_config_record(s@),
{
    let role = device_role_text(s.role);
    let rebroadcast_mode = rebroadcast_mode_text(s.rebroadcast_mode);
    let tzdef = if s.tzdef.as_str().is_empty() {
        None
    } else {
        Some(s.tzdef)
    };
    DeviceConfig {
        role,
        button_gpio: s.button_gpio,
        buzzer_gpio: s.buzzer_gpio,
        rebroadcast_mode,
        node_info_broadcast_secs: s.node_info_broadcast_secs,
        tzdef,
        disable_triple_click: s.disable_triple_click,
    }
}

/// Builds the position configuration record.
pub fn build_position_config(s: PositionSettings) -> (r: PositionConfig)
    ensures
        r@ == position_config_record(s),
{
    PositionConfig {
        position_broadcast_secs: s.position_broadcast_secs,
        position_broadcast_smart_enabled: s.position_broadcast_smart_enabled,
        fixed_position: s.fixed_position,
        gps_enabled: gps_mode_enabled(s.gps_mode),
        gps_mode: gps_mode_text(s.gps_mode),
    }
}

/// Builds the network configuration record.
pub fn build_network_config(s: NetworkSettings) -> (r: NetworkConfig)
    ensures
        r@ == network_config_record(s@),
{
    let ipv4_config = match s.ipv4_config {
        Some(setup) => Some(ipv4_setup_text(setup)),
        None => None,
    };
    NetworkConfig {
        wifi_enabled: s.wifi_enabled,
        wifi_ssid: s.wifi_ssid,
        wifi_psk: s.wifi_psk,
        ntp_server: s.ntp_server,
        eth_enabled: s.eth_enabled,
        ipv4_config,
    }
}

/// Builds the display configuration record.
pub fn build_display_config(s: DisplaySettings) -> (r: DisplayConfig)
    ensures
        r@ == display_config_record(s),
{
    DisplayConfig {
        screen_on_secs: s.screen_on_secs,
        gps_format: gps_format_text(s.gps_format),
        auto_screen_carousel_secs: s.auto_screen_carousel_secs,
        compass_north_top: s.compass_north_top,
        flip_screen: s.flip_screen,
        units: display_units_text(s.units),
        displaymode: display_mode_text(s.displaymode),
        heading_bold: s.heading_bold,
        wake_on_tap_or_motion: s.wake_on_tap_or_motion,
    }
}

/// Builds the radio configuration record.
pub fn build_lora_config(s: LoraSettings) -> (r: LoraConfig)
    ensures
        r@ == lora_config_record(s),
{
    LoraConfig {
        use_preset: s.use_preset,
        modem_preset: modem_preset_text(s.modem_preset),
        bandwidth: s.bandwidth,
        spread_factor: s.spread_factor,
        coding_rate: s.coding_rate,
        frequency_offset: s.frequency_offset,
        region: region_text(s.region),
        hop_limit: s.hop_limit,
        tx_enabled: s.tx_enabled,
        tx_power: s.tx_power,
        channel_num: s.channel_num,
        ignore_mqtt: s.ignore_mqtt,
    }
}

/// Builds the Bluetooth configuration record.
pub fn build_bluetooth_config(s: BluetoothSettings) -> (r: BluetoothConfig)
    ensures
        r@ == bluetooth_config_record(s),
{
    BluetoothConfig {
        enabled: s.enabled,
        mode: pairing_mode_text(s.mode),
        fixed_pin: s.fixed_pin,
        device_logging_enabled: false,
    }
}

/// Reads an admin payload as the answer to a configuration read.
pub fn decode_config_response(payload: &Vec<u8>) -> (r: ConfigResponse)
    ensures
        r@ == decoded_config_response(payload@),
{
    if let Some(c) = decode_device_settings(payload) {
        return ConfigResponse::Device(c);
    }
    if let Some(c) = decode_position_settings(payload) {
        return ConfigResponse::Position(c);
    }
    if let Some(c) = decode_power_settings(payload) {
        return ConfigResponse::Power(c);
    }
    if let Some(c) = decode_network_settings(payload) {
        return ConfigResponse::Network(c);
    }
    if let Some(c) = decode_display_settings(payload) {
        return ConfigResponse::Display(c);
    }
    if let Some(c) = decode_lora_settings(payload) {
        return ConfigResponse::Lora(c);
    }
    if let Some(c) = decode_bluetooth_settings(payload) {
        return ConfigResponse::Bluetooth(c);
    }
    ConfigResponse::Unread
}

/// Stores an answer to a configuration read in the state: the record of
/// its category is replaced, and an answer that was not read changes nothing.
pub fn apply_config_response(state: &mut DeviceState, response: ConfigResponse)
    ensures
        final(state)@ == with_config(old(state)@, response@),
{
    match response {
        ConfigResponse::Unread => {},
        ConfigResponse::Device(c) => {
            state.device_config = Some(build_device_config(c));
        },
        ConfigResponse::Position(c) => {
            state.position_config = Some(build_position_config(c));
        },
        ConfigResponse::Power(c) => {
            state.power_config = Some(c);
        },
        ConfigResponse::Network(c) => {
            state.network_config = Some(build_network_config(c));
        },
        ConfigResponse::Display(c) => {
            state.display_config = Some(build_display_config(c));
        },
        ConfigResponse::Lora(c) => {
            state.lora_config = Some(build_lora_config(c));
        },
        ConfigResponse::Bluetooth(c) => {
            state.bluetooth_config = Some(build_bluetooth_config(c));
        },
    }
}

/// Reads an admin payload and stores what it says of the configuration.
pub fn process_config_response(payload: &Vec<u8>, state: &mut DeviceState)
    ensures
        final(state)@ == with_config(old(state)@, decoded_config_response(payload@)),
{
    let response = decode_config_response(payload);
    apply_config_response(state, response);
}

} // verus!
