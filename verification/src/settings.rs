//! The latest known snapshot of each configuration category.

use vstd::prelude::*;
use crate::records::Ieee32;
use crate::views::opt_view;

verus! {

/// The power category of the configuration.
#[derive(Clone, Copy, Debug, PartialEq, Eq, Structural)]
pub struct PowerConfig {
    pub is_power_saving: bool,
    pub on_battery_shutdown_after_secs: u32,
    pub adc_multiplier_override: Ieee32,
    pub wait_bluetooth_secs: u32,
    pub sds_secs: u32,
    pub ls_secs: u32,
    pub min_wake_secs: u32,
}

/// The device category of the configuration.
#[derive(Debug)]
pub struct DeviceConfig {
    pub role: String,
    pub button_gpio: u32,
    pub buzzer_gpio: u32,
    pub rebroadcast_mode: String,
    pub node_info_broadcast_secs: u32,
    pub tzdef: Option<String>,
    pub disable_triple_click: bool,
}

pub struct DeviceConfigView {
    pub role: Seq<char>,
    pub button_gpio: u32,
    pub buzzer_gpio: u32,
    pub rebroadcast_mode: Seq<char>,
    pub node_info_broadcast_secs: u32,
    pub tzdef: Option<Seq<char>>,
    pub disable_triple_click: bool,
}

impl View for DeviceConfig {
    type V = DeviceConfigView;

    open spec fn view(&self) -> DeviceConfigView {
        DeviceConfigView {
            role: self.role@,
            button_gpio: self.button_gpio,
            buzzer_gpio: self.buzzer_gpio,
            rebroadcast_mode: self.rebroadcast_mode@,
            node_info_broadcast_secs: self.node_info_broadcast_secs,
            tzdef: opt_view(self.tzdef),
            disable_triple_click: self.disable_triple_click,
        }
    }
}

impl Clone for DeviceConfig {
    fn clone(&self) -> (r: Self)
        ensures
            r@ == self@,
    {
        DeviceConfig {
            role: self.role.clone(),
            button_gpio: self.button_gpio,
            buzzer_gpio: self.buzzer_gpio,
            rebroadcast_mode: self.rebroadcast_mode.clone(),
            node_info_broadcast_secs: self.node_info_broadcast_secs,
            tzdef: self.tzdef.clone(),
            disable_triple_click: self.disable_triple_click,
        }
    }
}

/// The position category of the configuration.
#[derive(Debug)]
pub struct PositionConfig {
    pub position_broadcast_secs: u32,
    pub position_broadcast_smart_enabled: bool,
    pub fixed_position: bool,
    pub gps_enabled: bool,
    pub gps_mode: String,
}

pub struct PositionConfigView {
    pub position_broadcast_secs: u32,
    pub position_broadcast_smart_enabled: bool,
    pub fixed_position: bool,
    pub gps_enabled: bool,
    pub gps_mode: Seq<char>,
}

impl View for PositionConfig {
    type V = PositionConfigView;

    open spec fn view(&self) -> PositionConfigView {
        PositionConfigView {
            position_broadcast_secs: self.position_broadcast_secs,
            position_broadcast_smart_enabled: self.position_broadcast_smart_enabled,
            fixed_position: self.fixed_position,
            gps_enabled: self.gps_enabled,
            gps_mode: self.gps_mode@,
        }
    }
}

impl Clone for PositionConfig {
    fn clone(&self) -> (r: Self)
        ensures
            r@ == self@,
    {
        PositionConfig {
            position_broadcast_secs: self.position_broadcast_secs,
            position_broadcast_smart_enabled: self.position_broadcast_smart_enabled,
            fixed_position: self.fixed_position,
            gps_enabled: self.gps_enabled,
            gps_mode: self.gps_mode.clone(),
        }
    }
}

/// The network category of the configuration.
#[derive(Debug)]
pub struct NetworkConfig {
    pub wifi_enabled: bool,
    pub wifi_ssid: String,
    pub wifi_psk: String,
    pub ntp_server: String,
    pub eth_enabled: bool,
    pub ipv4_config: Option<String>,
}

pub struct NetworkConfigView {
    pub wifi_enabled: bool,
    pub wifi_ssid: Seq<char>,
    pub wifi_psk: Seq<char>,
    pub ntp_server: Seq<char>,
    pub eth_enabled: bool,
    pub ipv4_config: Option<Seq<char>>,
}

impl View for NetworkConfig {
    type V = NetworkConfigView;

    open spec fn view(&self) -> NetworkConfigView {
        NetworkConfigView {
            wifi_enabled: self.wifi_enabled,
            wifi_ssid: self.wifi_ssid@,
            wifi_psk: self.wifi_psk@,
            ntp_server: self.ntp_server@,
            eth_enabled: self.eth_enabled,
            ipv4_config: opt_view(self.ipv4_config),
        }
    }
}

impl Clone for NetworkConfig {
    fn clone(&self) -> (r: Self)
        ensures
            r@ == self@,
    {
        NetworkConfig {
            wifi_enabled: self.wifi_enabled,
            wifi_ssid: self.wifi_ssid.clone(),
            wifi_psk: self.wifi_psk.clone(),
            ntp_server: self.ntp_server.clone(),
            eth_enabled: self.eth_enabled,
            ipv4_config: self.ipv4_config.clone(),
        }
    }
}

/// The display category of the configuration.
#[derive(Debug)]
pub struct DisplayConfig {
    pub screen_on_secs: u32,
    pub gps_format: String,
    pub auto_screen_carousel_secs: u32,
    pub compass_north_top: bool,
    pub flip_screen: bool,
    pub units: String,
    pub displaymode: String,
    pub heading_bold: bool,
    pub wake_on_tap_or_motion: bool,
}

pub struct DisplayConfigView {
    pub screen_on_secs: u32,
    pub gps_format: Seq<char>,
    pub auto_screen_carousel_secs: u32,
    pub compass_north_top: bool,
    pub flip_screen: bool,
    pub units: Seq<char>,
    pub displaymode: Seq<char>,
    pub heading_bold: bool,
    pub wake_on_tap_or_motion: bool,
}

impl View for DisplayConfig {
    type V = DisplayConfigView;

    open spec fn view(&self) -> DisplayConfigView {
        DisplayConfigView {
            screen_on_secs: self.screen_on_secs,
            gps_format: self.gps_format@,
            auto_screen_carousel_secs: self.auto_screen_carousel_secs,
            compass_north_top: self.compass_north_top,
            flip_screen: self.flip_screen,
            units: self.units@,
            displaymode: self.displaymode@,
            heading_bold: self.heading_bold,
            wake_on_tap_or_motion: self.wake_on_tap_or_motion,
        }
    }
}

impl Clone for DisplayConfig {
    fn clone(&self) -> (r: Self)
        ensures
            r@ == self@,
    {
        DisplayConfig {
            screen_on_secs: self.screen_on_secs,
            gps_format: self.gps_format.clone(),
            auto_screen_carousel_secs: self.auto_screen_carousel_secs,
            compass_north_top: self.compass_north_top,
            flip_screen: self.flip_screen,
            units: self.units.clone(),
            displaymode: self.displaymode.clone(),
            heading_bold: self.heading_bold,
            wake_on_tap_or_motion: self.wake_on_tap_or_motion,
        }
    }
}

/// The radio category of the configuration.
#[derive(Debug)]
pub struct LoraConfig {
    pub use_preset: bool,
    pub modem_preset: String,
    pub bandwidth: u32,
    pub spread_factor: u32,
    pub coding_rate: u32,
    pub frequency_offset: Ieee32,
    pub region: String,
    pub hop_limit: u32,
    pub tx_enabled: bool,
    pub tx_power: i32,
    pub channel_num: u32,
    pub ignore_mqtt: bool,
}

pub struct LoraConfigView {
    pub use_preset: bool,
    pub modem_preset: Seq<char>,
    pub bandwidth: u32,
    pub spread_factor: u32,
    pub coding_rate: u32,
    pub frequency_offset: Ieee32,
    pub region: Seq<char>,
    pub hop_limit: u32,
    pub tx_enabled: bool,
    pub tx_power: i32,
    pub channel_num: u32,
    pub ignore_mqtt: bool,
}

impl View for LoraConfig {
    type V = LoraConfigView;

    open spec fn view(&self) -> LoraConfigView {
        LoraConfigView {
            use_preset: self.use_preset,
            modem_preset: self.modem_preset@,
            bandwidth: self.bandwidth,
            spread_factor: self.spread_factor,
            coding_rate: self.coding_rate,
            frequency_offset: self.frequency_offset,
            region: self.region@,
            hop_limit: self.hop_limit,
            tx_enabled: self.tx_enabled,
            tx_power: self.tx_power,
            channel_num: self.channel_num,
            ignore_mqtt: self.ignore_mqtt,
        }
    }
}

impl Clone for LoraConfig {
    fn clone(&self) -> (r: Self)
        ensures
            r@ == self@,
    {
        LoraConfig {
            use_preset: self.use_preset,
            modem_preset: self.modem_preset.clone(),
            bandwidth: self.bandwidth,
            spread_factor: self.spread_factor,
            coding_rate: self.coding_rate,
            frequency_offset: self.frequency_offset,
            region: self.region.clone(),
            hop_limit: self.hop_limit,
            tx_enabled: self.tx_enabled,
            tx_power: self.tx_power,
            channel_num: self.channel_num,
            ignore_mqtt: self.ignore_mqtt,
        }
    }
}

/// The Bluetooth category of the configuration.
#[derive(Debug)]
pub struct BluetoothConfig {
    pub enabled: bool,
    pub mode: String,
    pub fixed_pin: u32,
    pub device_logging_enabled: bool,
}

pub struct BluetoothConfigView {
    pub enabled: bool,
    pub mode: Seq<char>,
    pub fixed_pin: u32,
    pub device_logging_enabled: bool,
}

impl View for BluetoothConfig {
    type V = BluetoothConfigView;

    open spec fn view(&self) -> BluetoothConfigView {
        BluetoothConfigView {
            enabled: self.enabled,
            mode: self.mode@,
            fixed_pin: self.fixed_pin,
            device_logging_enabled: self.device_logging_enabled,
        }
    }
}

impl Clone for BluetoothConfig {
    fn clone(&self) -> (r: Self)
        ensures
            r@ == self@,
    {
        BluetoothConfig {
            enabled: self.enabled,
            mode: self.mode.clone(),
            fixed_pin: self.fixed_pin,
            device_logging_enabled: self.device_logging_enabled,
        }
    }
}

} // verus!
