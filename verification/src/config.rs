//! Configuration reads and changes by key: a key names a category and a
//! field, with a dot between the two.

use vstd::prelude::*;
use vstd::string::*;
use crate::encode::config_request_bytes;
use crate::encode::encode_config_request;
use crate::encode::encode_region_change;
use crate::encode::encode_role_change;
use crate::encode::region_change_bytes;
use crate::encode::role_change_bytes;
use crate::outbound::admin_packet;
use crate::outbound::build_admin_packet;
use crate::outbound::RawPacket;
use crate::outbound::RawPacketView;
use crate::platform::to_upper;
use crate::platform::uppercased;
use crate::records::Ieee32;
use crate::settings::BluetoothConfig;
use crate::settings::BluetoothConfigView;
use crate::settings::DeviceConfig;
use crate::settings::DeviceConfigView;
use crate::settings::DisplayConfig;
use crate::settings::DisplayConfigView;
use crate::settings::LoraConfig;
use crate::settings::LoraConfigView;
use crate::settings::NetworkConfig;
use crate::settings::NetworkConfigView;
use crate::settings::PositionConfig;
use crate::settings::PositionConfigView;
use crate::settings::PowerConfig;
use crate::views::opt_view;
use crate::state::DeviceState;
use crate::state::DeviceStateView;

verus! {

/// The milliseconds that a configuration read waits between its request and
/// its look at the cache.
pub const CONFIG_SETTLE_MILLIS: u64 = 500;

/// Why a configuration read or change by key is refused.
#[derive(Clone, Copy, Debug, PartialEq, Eq, Structural)]
pub enum ConfigError {
    /// The key is not a category and a field with one dot between them.
    InvalidKeyFormat,
    /// The key names a category that there is not.
    UnknownCategory,
    /// The key names a field that its category does not have, or that
    /// cannot be changed.
    UnknownField,
    /// The category is one whose fields cannot be changed.
    NotImplemented,
    /// The value is no name of a radio region.
    UnknownRegion,
    /// The value is no name of a device role.
    UnknownRole,
}

/// The categories of the configuration.
#[derive(Clone, Copy, Debug, PartialEq, Eq, Structural)]
pub enum ConfigCategory {
    Device,
    Position,
    Power,
    Network,
    Display,
    Lora,
    Bluetooth,
}

/// A value read from the configuration.
#[derive(Debug)]
pub enum ConfigValue {
    /// No data: the category has not been cached, or the field is empty.
    Null,
    Bool(bool),
    Unsigned(u32),
    Signed(i32),
    Text(String),
    Real(Ieee32),
}

pub enum ConfigValueView {
    Null,
    Bool(bool),
    Unsigned(u32),
    Signed(i32),
    Text(Seq<char>),
    Real(Ieee32),
}

impl View for ConfigValue {
    type V = ConfigValueView;

    open spec fn view(&self) -> ConfigValueView {
        match self {
            ConfigValue::Null => ConfigValueView::Null,
            ConfigValue::Bool(b) => ConfigValueView::Bool(*b),
            ConfigValue::Unsigned(n) => ConfigValueView::Unsigned(*n),
            ConfigValue::Signed(n) => ConfigValueView::Signed(*n),
            ConfigValue::Text(t) => ConfigValueView::Text(t@),
            ConfigValue::Real(x) => ConfigValueView::Real(*x),
        }
    }
}

/// Whether two texts are the same.
pub fn same_text(a: &str, b: &str) -> (r: bool)
    ensures
        r == (a@ == b@),
{
    let left = String::from_str(a);
    let right = String::from_str(b);
    left == right
}

/// Whether the key has its one and only dot at position `i`.
pub open spec fn splits_at(key: Seq<char>, i: int) -> bool {
    &&& 0 <= i < key.len()
    &&& key[i] == '.'
    &&& forall|j: int| 0 <= j < key.len() && j != i ==> key[j] != '.'
}

/// The category name and the field name of a key: what stands before and
/// after its dot, where it has exactly one.
pub open spec fn key_parts(key: Seq<char>) -> Option<(Seq<char>, Seq<char>)> {
    if exists|i: int| splits_at(key, i) {
        let i = choose|i: int| splits_at(key, i);
        Some((key.subrange(0, i), key.subrange(i + 1, key.len() as int)))
    } else {
        None
    }
}

/// The category of a name.
pub open spec fn category_named(name: Seq<char>) -> Option<ConfigCategory> {
    if name == "device"@ {
        Some(ConfigCategory::Device)
    } else if name == "position"@ {
        Some(ConfigCategory::Position)
    } else if name == "power"@ {
        Some(ConfigCategory::Power)
    } else if name == "network"@ {
        Some(ConfigCategory::Network)
    } else if name == "display"@ {
        Some(ConfigCategory::Display)
    } else if name == "lora"@ {
        Some(ConfigCategory::Lora)
    } else if name == "bluetooth"@ {
        Some(ConfigCategory::Bluetooth)
    } else {
        None
    }
}

/// The number under which the device knows a category.
pub open spec fn config_type_of(category: ConfigCategory) -> i32 {
    match category {
        ConfigCategory::Device => 0,
        ConfigCategory::Position => 1,
        ConfigCategory::Power => 2,
        ConfigCategory::Network => 3,
        ConfigCategory::Display => 4,
        ConfigCategory::Lora => 5,
        ConfigCategory::Bluetooth => 6,
    }
}

/// Splits a key at its dot.
pub fn split_key(key: &str) -> (r: Result<(String, String), ConfigError>)
    ensures
        match r {
            Ok((category, field)) => key_parts(key@) == Some((category@, field@)),
            Err(e) => e == ConfigError::InvalidKeyFormat && key_parts(key@) is None,
        },
{
    let len = key.unicode_len();
    let mut dots: u8 = 0;
    let mut at: usize = 0;
    let mut i: usize = 0;
    let ghost mut second: int = 0;
    while i < len
        invariant
            i <= len,
            len == key@.len(),
            dots <= 2,
            dots == 0 ==> forall|j: int| 0 <= j < i ==> key@[j] != '.',
            dots == 1 ==> at < i && key@[at as int] == '.' && forall|j: int|
                0 <= j < i && j != at ==> key@[j] != '.',
            dots == 2 ==> at < i && key@[at as int] == '.' && 0 <= second < i && second != at
                && key@[second] == '.',
        decreases len - i,
    {
        if key.get_char(i) == '.' {
            if dots == 0 {
                at = i;
                dots = 1;
            } else if dots == 1 {
                proof {
                    second = i as int;
                }
                dots = 2;
            }
        }
        i = i + 1;
    }
    if dots == 1 {
        proof {
            assert(splits_at(key@, at as int));
            let chosen = choose|i: int| splits_at(key@, i);
            assert(chosen == at);
        }
        let category = String::from_str(key.substring_char(0, at));
        let field = String::from_str(key.substring_char(at + 1, len));
        Ok((category, field))
    } else {
        proof {
            assert forall|i: int| !splits_at(key@, i) by {
                if dots == 2 && splits_at(key@, i) {
                    assert(key@[at as int] == '.' && key@[second] == '.');
                }
            }
        }
        Err(ConfigError::InvalidKeyFormat)
    }
}

/// The category that a name stands for.
pub fn category_of(name: &str) -> (r: Option<ConfigCategory>)
    ensures
        r == category_named(name@),
{
    if same_text(name, "device") {
        Some(ConfigCategory::Device)
    } else if same_text(name, "position") {
        Some(ConfigCategory::Position)
    } else if same_text(name, "power") {
        Some(ConfigCategory::Power)
    } else if same_text(name, "network") {
        Some(ConfigCategory::Network)
    } else if same_text(name, "display") {
        Some(ConfigCategory::Display)
    } else if same_text(name, "lora") {
        Some(ConfigCategory::Lora)
    } else if same_text(name, "bluetooth") {
        Some(ConfigCategory::Bluetooth)
    } else {
        None
    }
}

/// The number under which the device knows a category.
pub fn config_type(category: ConfigCategory) -> (r: i32)
    ensures
        r == config_type_of(category),
{
    match category {
        ConfigCategory::Device => 0,
        ConfigCategory::Position => 1,
        ConfigCategory::Power => 2,
        ConfigCategory::Network => 3,
        ConfigCategory::Display => 4,
        ConfigCategory::Lora => 5,
        ConfigCategory::Bluetooth => 6,
    }
}

/// A key that names a category that there is, and some field.
#[derive(Debug)]
pub struct ConfigKey {
    pub category: ConfigCategory,
    pub field: String,
}

pub struct ConfigKeyView {
    pub category: ConfigCategory,
    pub field: Seq<char>,
}

impl View for ConfigKey {
    type V = ConfigKeyView;

    open spec fn view(&self) -> ConfigKeyView {
        ConfigKeyView { category: self.category, field: self.field@ }
    }
}

/// What a key of a configuration read stands for: the key must have the
/// form of category, dot, field, and the category must be one that there is.
/// Whether the field is one of the category is checked when the value
/// is read.
pub open spec fn parsed_key(key: Seq<char>) -> Result<ConfigKeyView, ConfigError> {
    match key_parts(key) {
        None => Err(ConfigError::InvalidKeyFormat),
        Some((category, field)) => match category_named(category) {
            None => Err(ConfigError::UnknownCategory),
            Some(category) => Ok(ConfigKeyView { category, field }),
        },
    }
}

/// Reads the key of a configuration read.
pub fn parse_key(key: &str) -> (r: Result<ConfigKey, ConfigError>)
    ensures
        match r {
            Ok(parsed) => parsed_key(key@) == Ok::<ConfigKeyView, ConfigError>(parsed@),
            Err(e) => parsed_key(key@) == Err::<ConfigKeyView, ConfigError>(e),
        },
{
    match split_key(key) {
        Err(e) => Err(e),
        Ok((category, field)) => match category_of(category.as_str()) {
            None => Err(ConfigError::UnknownCategory),
            Some(category) => Ok(ConfigKey { category, field }),
        },
    }
}

/// Builds the request that asks the device for the configuration of a
/// category.
pub fn config_request(category: ConfigCategory, passkey: Vec<u8>) -> (r: RawPacket)
    ensures
        r@ == admin_packet(config_request_bytes(config_type_of(category), passkey@)),
{
    build_admin_packet(encode_config_request(config_type(category), passkey))
}

/// The outcome of reading a field: the value where the field is one of the
/// category, and the error of an unknown field where it is not.
pub open spec fn field_outcome(value: Option<ConfigValueView>) -> Result<
    ConfigValueView,
    ConfigError,
> {
    match value {
        Some(v) => Ok(v),
        None => Err(ConfigError::UnknownField),
    }
}

/// The value of a field of the device configuration, given what is cached of
/// the category: the cached value of the field, and no data where nothing
/// of the category is cached or the field is empty. None for a name that is
/// no field of the category, cached or not.
pub open spec fn device_field(c: Option<DeviceConfigView>, field: Seq<char>) -> Option<ConfigValueView> {
    if field == "role"@ {
        Some(match c {
            Some(c) => ConfigValueView::Text(c.role),
            None => ConfigValueView::Null,
        })
    } else if field == "button_gpio"@ {
        Some(match c {
            Some(c) => ConfigValueView::Unsigned(c.button_gpio),
            None => ConfigValueView::Null,
        })
    } else if field == "buzzer_gpio"@ {
        Some(match c {
            Some(c) => ConfigValueView::Unsigned(c.buzzer_gpio),
            None => ConfigValueView::Null,
        })
    } else if field == "rebroadcast_mode"@ {
        Some(match c {
            Some(c) => ConfigValueView::Text(c.rebroadcast_mode),
            None => ConfigValueView::Null,
        })
    } else if field == "node_info_broadcast_secs"@ {
        Some(match c {
            Some(c) => ConfigValueView::Unsigned(c.node_info_broadcast_secs),
            None => ConfigValueView::Null,
        })
    } else if field == "tzdef"@ {
        Some(match c {
            Some(DeviceConfigView { tzdef: Some(text), .. }) => ConfigValueView::Text(text),
            _ => ConfigValueView::Null,
        })
    } else if field == "disable_triple_click"@ {
        Some(match c {
            Some(c) => ConfigValueView::Bool(c.disable_triple_click),
            None => ConfigValueView::Null,
        })
    } else {
        None
    }
}

/// The value of a field of the position configuration, given what is cached of
/// the category: the cached value of the field, and no data where nothing
/// of the category is cached or the field is empty. None for a name that is
/// no field of the category, cached or not.
pub open spec fn position_field(c: Option<PositionConfigView>, field: Seq<char>) -> Option<ConfigValueView> {
    if field == "position_broadcast_secs"@ {
        Some(match c {
            Some(c) => ConfigValueView::Unsigned(c.position_broadcast_secs),
            None => ConfigValueView::Null,
        })
    } else if field == "position_broadcast_smart_enabled"@ {
        Some(match c {
            Some(c) => ConfigValueView::Bool(c.position_broadcast_smart_enabled),
            None => ConfigValueView::Null,
        })
    } else if field == "fixed_position"@ {
        Some(match c {
            Some(c) => ConfigValueView::Bool(c.fixed_position),
            None => ConfigValueView::Null,
        })
    } else if field == "gps_enabled"@ {
        Some(match c {
            Some(c) => ConfigValueView::Bool(c.gps_enabled),
            None => ConfigValueView::Null,
        })
    } else if field == "gps_mode"@ {
        Some(match c {
            Some(c) => ConfigValueView::Text(c.gps_mode),
            None => ConfigValueView::Null,
        })
    } else {
        None
    }
}

/// The value of a field of the power configuration, given what is cached of
/// the category: the cached value of the field, and no data where nothing
/// of the category is cached or the field is empty. None for a name that is
/// no field of the category, cached or not.
pub open spec fn power_field(c: Option<PowerConfig>, field: Seq<char>) -> Option<ConfigValueView> {
    if field == "is_power_saving"@ {
        Some(match c {
            Some(c) => ConfigValueView::Bool(c.is_power_saving),
            None => ConfigValueView::Null,
        })
    } else if field == "on_battery_shutdown_after_secs"@ {
        Some(match c {
            Some(c) => ConfigValueView::Unsigned(c.on_battery_shutdown_after_secs),
            None => ConfigValueView::Null,
        })
    } else if field == "adc_multiplier_override"@ {
        Some(match c {
            Some(c) => ConfigValueView::Real(c.adc_multiplier_override),
            None => ConfigValueView::Null,
        })
    } else if field == "wait_bluetooth_secs"@ {
        Some(match c {
            Some(c) => ConfigValueView::Unsigned(c.wait_bluetooth_secs),
            None => ConfigValueView::Null,
        })
    } else if field == "sds_secs"@ {
        Some(match c {
            Some(c) => ConfigValueView::Unsigned(c.sds_secs),
            None => ConfigValueView::Null,
        })
    } else if field == "ls_secs"@ {
        Some(match c {
            Some(c) => ConfigValueView::Unsigned(c.ls_secs),
            None => ConfigValueView::Null,
        })
    } else if field == "min_wake_secs"@ {
        Some(match c {
            Some(c) => ConfigValueView::Unsigned(c.min_wake_secs),
            None => ConfigValueView::Null,
        })
    } else {
        None
    }
}

/// The value of a field of the network configuration, given what is cached of
/// the category: the cached value of the field, and no data where nothing
/// of the category is cached or the field is empty. None for a name that is
/// no field of the category, cached or not.
pub open spec fn network_field(c: Option<NetworkConfigView>, field: Seq<char>) -> Option<ConfigValueView> {
    if field == "wifi_enabled"@ {
        Some(match c {
            Some(c) => ConfigValueView::Bool(c.wifi_enabled),
            None => ConfigValueView::Null,
        })
    } else if field == "wifi_ssid"@ {
        Some(match c {
            Some(c) => ConfigValueView::Text(c.wifi_ssid),
            None => ConfigValueView::Null,
        })
    } else if field == "wifi_psk"@ {
        Some(match c {
            Some(c) => ConfigValueView::Text(c.wifi_psk),
            None => ConfigValueView::Null,
        })
    } else if field == "ntp_server"@ {
        Some(match c {
            Some(c) => ConfigValueView::Text(c.ntp_server),
            None => ConfigValueView::Null,
        })
    } else if field == "eth_enabled"@ {
        Some(match c {
            Some(c) => ConfigValueView::Bool(c.eth_enabled),
            None => ConfigValueView::Null,
        })
    } else if field == "ipv4_config"@ {
        Some(match c {
            Some(NetworkConfigView { ipv4_config: Some(text), .. }) => ConfigValueView::Text(text),
            _ => ConfigValueView::Null,
        })
    } else {
        None
    }
}

/// The value of a field of the display configuration, given what is cached of
/// the category: the cached value of the field, and no data where nothing
/// of the category is cached or the field is empty. None for a name that is
/// no field of the category, cached or not.
pub open spec fn display_field(c: Option<DisplayConfigView>, field: Seq<char>) -> Option<ConfigValueView> {
    if field == "screen_on_secs"@ {
        Some(match c {
            Some(c) => ConfigValueView::Unsigned(c.screen_on_secs),
            None => ConfigValueView::Null,
        })
    } else if field == "gps_format"@ {
        Some(match c {
            Some(c) => ConfigValueView::Text(c.gps_format),
            None => ConfigValueView::Null,
        })
    } else if field == "auto_screen_carousel_secs"@ {
        Some(match c {
            Some(c) => ConfigValueView::Unsigned(c.auto_screen_carousel_secs),
            None => ConfigValueView::Null,
        })
    } else if field == "compass_north_top"@ {
        Some(match c {
            Some(c) => ConfigValueView::Bool(c.compass_north_top),
            None => ConfigValueView::Null,
        })
    } else if field == "flip_screen"@ {
        Some(match c {
            Some(c) => ConfigValueView::Bool(c.flip_screen),
            None => ConfigValueView::Null,
        })
    } else if field == "units"@ {
        Some(match c {
            Some(c) => ConfigValueView::Text(c.units),
            None => ConfigValueView::Null,
        })
    } else if field == "displaymode"@ {
        Some(match c {
            Some(c) => ConfigValueView::Text(c.displaymode),
            None => ConfigValueView::Null,
        })
    } else if field == "heading_bold"@ {
        Some(match c {
            Some(c) => ConfigValueView::Bool(c.heading_bold),
            None => ConfigValueView::Null,
        })
    } else if field == "wake_on_tap_or_motion"@ {
        Some(match c {
            Some(c) => ConfigValueView::Bool(c.wake_on_tap_or_motion),
            None => ConfigValueView::Null,
        })
    } else {
        None
    }
}

/// The value of a field of the lora configuration, given what is cached of
/// the category: the cached value of the field, and no data where nothing
/// of the category is cached or the field is empty. None for a name that is
/// no field of the category, cached or not.
pub open spec fn lora_field(c: Option<LoraConfigView>, field: Seq<char>) -> Option<ConfigValueView> {
    if field == "use_preset"@ {
        Some(match c {
            Some(c) => ConfigValueView::Bool(c.use_preset),
            None => ConfigValueView::Null,
        })
    } else if field == "modem_preset"@ {
        Some(match c {
            Some(c) => ConfigValueView::Text(c.modem_preset),
            None => ConfigValueView::Null,
        })
    } else if field == "bandwidth"@ {
        Some(match c {
            Some(c) => ConfigValueView::Unsigned(c.bandwidth),
            None => ConfigValueView::Null,
        })
    } else if field == "spread_factor"@ {
        Some(match c {
            Some(c) => ConfigValueView::Unsigned(c.spread_factor),
            None => ConfigValueView::Null,
        })
    } else if field == "coding_rate"@ {
        Some(match c {
            Some(c) => ConfigValueView::Unsigned(c.coding_rate),
            None => ConfigValueView::Null,
        })
    } else if field == "frequency_offset"@ {
        Some(match c {
            Some(c) => ConfigValueView::Real(c.frequency_offset),
            None => ConfigValueView::Null,
        })
    } else if field == "region"@ {
        Some(match c {
            Some(c) => ConfigValueView::Text(c.region),
            None => ConfigValueView::Null,
        })
    } else if field == "hop_limit"@ {
        Some(match c {
            Some(c) => ConfigValueView::Unsigned(c.hop_limit),
            None => ConfigValueView::Null,
        })
    } else if field == "tx_enabled"@ {
        Some(match c {
            Some(c) => ConfigValueView::Bool(c.tx_enabled),
            None => ConfigValueView::Null,
        })
    } else if field == "tx_power"@ {
        Some(match c {
            Some(c) => ConfigValueView::Signed(c.tx_power),
            None => ConfigValueView::Null,
        })
    } else if field == "channel_num"@ {
        Some(match c {
            Some(c) => ConfigValueView::Unsigned(c.channel_num),
            None => ConfigValueView::Null,
        })
    } else if field == "ignore_mqtt"@ {
        Some(match c {
            Some(c) => ConfigValueView::Bool(c.ignore_mqtt),
            None => ConfigValueView::Null,
        })
    } else {
        None
    }
}

/// The value of a field of the bluetooth configuration, given what is cached of
/// the category: the cached value of the field, and no data where nothing
/// of the category is cached or the field is empty. None for a name that is
/// no field of the category, cached or not.
pub open spec fn bluetooth_field(c: Option<BluetoothConfigView>, field: Seq<char>) -> Option<ConfigValueView> {
    if field == "enabled"@ {
        Some(match c {
            Some(c) => ConfigValueView::Bool(c.enabled),
            None => ConfigValueView::Null,
        })
    } else if field == "mode"@ {
        Some(match c {
            Some(c) => ConfigValueView::Text(c.mode),
            None => ConfigValueView::Null,
        })
    } else if field == "fixed_pin"@ {
        Some(match c {
            Some(c) => ConfigValueView::Unsigned(c.fixed_pin),
            None => ConfigValueView::Null,
        })
    } else if field == "device_logging_enabled"@ {
        Some(match c {
            Some(c) => ConfigValueView::Bool(c.device_logging_enabled),
            None => ConfigValueView::Null,
        })
    } else {
        None
    }
}

/// The value that a configuration read returns from the cache: the cached
/// value of the field. A category of which nothing is cached reads as no
/// data. A name that is no field of the category is an error, whether or not
/// the category is cached.
pub open spec fn config_value(s: DeviceStateView, key: ConfigKeyView) -> Result<
    ConfigValueView,
    ConfigError,
> {
    match key.category {
        ConfigCategory::Device => field_outcome(device_field(s.device_config, key.field)),
        ConfigCategory::Position => field_outcome(position_field(s.position_config, key.field)),
        ConfigCategory::Power => field_outcome(power_field(s.power_config, key.field)),
        ConfigCategory::Network => field_outcome(network_field(s.network_config, key.field)),
        ConfigCategory::Display => field_outcome(display_field(s.display_config, key.field)),
        ConfigCategory::Lora => field_outcome(lora_field(s.lora_config, key.field)),
        ConfigCategory::Bluetooth => field_outcome(
            bluetooth_field(s.bluetooth_config, key.field),
        ),
    }
}

/// Reads a field of the device configuration by its name, from what is
/// cached of the category.
pub fn read_device_field(c: &Option<DeviceConfig>, field: &str) -> (r: Option<ConfigValue>)
    ensures
        opt_view(r) == device_field(opt_view(*c), field@),
{
    if same_text(field, "role") {
        Some(match c {
            Some(c) => ConfigValue::Text(c.role.clone()),
            None => ConfigValue::Null,
        })
    } else if same_text(field, "button_gpio") {
        Some(match c {
            Some(c) => ConfigValue::Unsigned(c.button_gpio),
            None => ConfigValue::Null,
        })
    } else if same_text(field, "buzzer_gpio") {
        Some(match c {
            Some(c) => ConfigValue::Unsigned(c.buzzer_gpio),
            None => ConfigValue::Null,
        })
    } else if same_text(field, "rebroadcast_mode") {
        Some(match c {
            Some(c) => ConfigValue::Text(c.rebroadcast_mode.clone()),
            None => ConfigValue::Null,
        })
    } else if same_text(field, "node_info_broadcast_secs") {
        Some(match c {
            Some(c) => ConfigValue::Unsigned(c.node_info_broadcast_secs),
            None => ConfigValue::Null,
        })
    } else if same_text(field, "tzdef") {
        Some(match c {
            Some(c) => match &c.tzdef {
                Some(text) => ConfigValue::Text(text.clone()),
                None => ConfigValue::Null,
            },
            None => ConfigValue::Null,
        })
    } else if same_text(field, "disable_triple_click") {
        Some(match c {
            Some(c) => ConfigValue::Bool(c.disable_triple_click),
            None => ConfigValue::Null,
        })
    } else {
        None
    }
}

/// Reads a field of the position configuration by its name, from what is
/// cached of the category.
pub fn read_position_field(c: &Option<PositionConfig>, field: &str) -> (r: Option<ConfigValue>)
    ensures
        opt_view(r) == position_field(opt_view(*c), field@),
{
    if same_text(field, "position_broadcast_secs") {
        Some(match c {
            Some(c) => ConfigValue::Unsigned(c.position_broadcast_secs),
            None => ConfigValue::Null,
        })
    } else if same_text(field, "position_broadcast_smart_enabled") {
        Some(match c {
            Some(c) => ConfigValue::Bool(c.position_broadcast_smart_enabled),
            None => ConfigValue::Null,
        })
    } else if same_text(field, "fixed_position") {
        Some(match c {
            Some(c) => ConfigValue::Bool(c.fixed_position),
            None => ConfigValue::Null,
        })
    } else if same_text(field, "gps_enabled") {
        Some(match c {
            Some(c) => ConfigValue::Bool(c.gps_enabled),
            None => ConfigValue::Null,
        })
    } else if same_text(field, "gps_mode") {
        Some(match c {
            Some(c) => ConfigValue::Text(c.gps_mode.clone()),
            None => ConfigValue::Null,
        })
    } else {
        None
    }
}

/// Reads a field of the power configuration by its name, from what is
/// cached of the category.
pub fn read_power_field(c: &Option<PowerConfig>, field: &str) -> (r: Option<ConfigValue>)
    ensures
        opt_view(r) == power_field(*c, field@),
{
    if same_text(field, "is_power_saving") {
        Some(match c {
            Some(c) => ConfigValue::Bool(c.is_power_saving),
            None => ConfigValue::Null,
        })
    } else if same_text(field, "on_battery_shutdown_after_secs") {
        Some(match c {
            Some(c) => ConfigValue::Unsigned(c.on_battery_shutdown_after_secs),
            None => ConfigValue::Null,
        })
    } else if same_text(field, "adc_multiplier_override") {
        Some(match c {
            Some(c) => ConfigValue::Real(c.adc_multiplier_override),
            None => ConfigValue::Null,
        })
    } else if same_text(field, "wait_bluetooth_secs") {
        Some(match c {
            Some(c) => ConfigValue::Unsigned(c.wait_bluetooth_secs),
            None => ConfigValue::Null,
        })
    } else if same_text(field, "sds_secs") {
        Some(match c {
            Some(c) => ConfigValue::Unsigned(c.sds_secs),
            None => ConfigValue::Null,
        })
    } else if same_text(field, "ls_secs") {
        Some(match c {
            Some(c) => ConfigValue::Unsigned(c.ls_secs),
            None => ConfigValue::Null,
        })
    } else if same_text(field, "min_wake_secs") {
        Some(match c {
            Some(c) => ConfigValue::Unsigned(c.min_wake_secs),
            None => ConfigValue::Null,
        })
    } else {
        None
    }
}

/// Reads a field of the network configuration by its name, from what is
/// cached of the category.
pub fn read_network_field(c: &Option<NetworkConfig>, field: &str) -> (r: Option<ConfigValue>)
    ensures
        opt_view(r) == network_field(opt_view(*c), field@),
{
    if same_text(field, "wifi_enabled") {
        Some(match c {
            Some(c) => ConfigValue::Bool(c.wifi_enabled),
            None => ConfigValue::Null,
        })
    } else if same_text(field, "wifi_ssid") {
        Some(match c {
            Some(c) => ConfigValue::Text(c.wifi_ssid.clone()),
            None => ConfigValue::Null,
        })
    } else if same_text(field, "wifi_psk") {
        Some(match c {
            Some(c) => ConfigValue::Text(c.wifi_psk.clone()),
            None => ConfigValue::Null,
        })
    } else if same_text(field, "ntp_server") {
        Some(match c {
            Some(c) => ConfigValue::Text(c.ntp_server.clone()),
            None => ConfigValue::Null,
        })
    } else if same_text(field, "eth_enabled") {
        Some(match c {
            Some(c) => ConfigValue::Bool(c.eth_enabled),
            None => ConfigValue::Null,
        })
    } else if same_text(field, "ipv4_config") {
        Some(match c {
            Some(c) => match &c.ipv4_config {
                Some(text) => ConfigValue::Text(text.clone()),
                None => ConfigValue::Null,
            },
            None => ConfigValue::Null,
        })
    } else {
        None
    }
}

/// Reads a field of the display configuration by its name, from what is
/// cached of the category.
pub fn read_display_field(c: &Option<DisplayConfig>, field: &str) -> (r: Option<ConfigValue>)
    ensures
        opt_view(r) == display_field(opt_view(*c), field@),
{
    if same_text(field, "screen_on_secs") {
        Some(match c {
            Some(c) => ConfigValue::Unsigned(c.screen_on_secs),
            None => ConfigValue::Null,
        })
    } else if same_text(field, "gps_format") {
        Some(match c {
            Some(c) => ConfigValue::Text(c.gps_format.clone()),
            None => ConfigValue::Null,
        })
    } else if same_text(field, "auto_screen_carousel_secs") {
        Some(match c {
            Some(c) => ConfigValue::Unsigned(c.auto_screen_carousel_secs),
            None => ConfigValue::Null,
        })
    } else if same_text(field, "compass_north_top") {
        Some(match c {
            Some(c) => ConfigValue::Bool(c.compass_north_top),
            None => ConfigValue::Null,
        })
    } else if same_text(field, "flip_screen") {
        Some(match c {
            Some(c) => ConfigValue::Bool(c.flip_screen),
            None => ConfigValue::Null,
        })
    } else if same_text(field, "units") {
        Some(match c {
            Some(c) => ConfigValue::Text(c.units.clone()),
            None => ConfigValue::Null,
        })
    } else if same_text(field, "displaymode") {
        Some(match c {
            Some(c) => ConfigValue::Text(c.displaymode.clone()),
            None => ConfigValue::Null,
        })
    } else if same_text(field, "heading_bold") {
        Some(match c {
            Some(c) => ConfigValue::Bool(c.heading_bold),
            None => ConfigValue::Null,
        })
    } else if same_text(field, "wake_on_tap_or_motion") {
        Some(match c {
            Some(c) => ConfigValue::Bool(c.wake_on_tap_or_motion),
            None => ConfigValue::Null,
        })
    } else {
        None
    }
}

/// Reads a field of the lora configuration by its name, from what is
/// cached of the category.
pub fn read_lora_field(c: &Option<LoraConfig>, field: &str) -> (r: Option<ConfigValue>)
    ensures
        opt_view(r) == lora_field(opt_view(*c), field@),
{
    if same_text(field, "use_preset") {
        Some(match c {
            Some(c) => ConfigValue::Bool(c.use_preset),
            None => ConfigValue::Null,
        })
    } else if same_text(field, "modem_preset") {
        Some(match c {
            Some(c) => ConfigValue::Text(c.modem_preset.clone()),
            None => ConfigValue::Null,
        })
    } else if same_text(field, "bandwidth") {
        Some(match c {
            Some(c) => ConfigValue::Unsigned(c.bandwidth),
            None => ConfigValue::Null,
        })
    } else if same_text(field, "spread_factor") {
        Some(match c {
            Some(c) => ConfigValue::Unsigned(c.spread_factor),
            None => ConfigValue::Null,
        })
    } else if same_text(field, "coding_rate") {
        Some(match c {
            Some(c) => ConfigValue::Unsigned(c.coding_rate),
            None => ConfigValue::Null,
        })
    } else if same_text(field, "frequency_offset") {
        Some(match c {
            Some(c) => ConfigValue::Real(c.frequency_offset),
            None => ConfigValue::Null,
        })
    } else if same_text(field, "region") {
        Some(match c {
            Some(c) => ConfigValue::Text(c.region.clone()),
            None => ConfigValue::Null,
        })
    } else if same_text(field, "hop_limit") {
        Some(match c {
            Some(c) => ConfigValue::Unsigned(c.hop_limit),
            None => ConfigValue::Null,
        })
    } else if same_text(field, "tx_enabled") {
        Some(match c {
            Some(c) => ConfigValue::Bool(c.tx_enabled),
            None => ConfigValue::Null,
        })
    } else if same_text(field, "tx_power") {
        Some(match c {
            Some(c) => ConfigValue::Signed(c.tx_power),
            None => ConfigValue::Null,
        })
    } else if same_text(field, "channel_num") {
        Some(match c {
            Some(c) => ConfigValue::Unsigned(c.channel_num),
            None => ConfigValue::Null,
        })
    } else if same_text(field, "ignore_mqtt") {
        Some(match c {
            Some(c) => ConfigValue::Bool(c.ignore_mqtt),
            None => ConfigValue::Null,
        })
    } else {
        None
    }
}

/// Reads a field of the bluetooth configuration by its name, from what is
/// cached of the category.
pub fn read_bluetooth_field(c: &Option<BluetoothConfig>, field: &str) -> (r: Option<ConfigValue>)
    ensures
        opt_view(r) == bluetooth_field(opt_view(*c), field@),
{
    if same_text(field, "enabled") {
        Some(match c {
            Some(c) => ConfigValue::Bool(c.enabled),
            None => ConfigValue::Null,
        })
    } else if same_text(field, "mode") {
        Some(match c {
            Some(c) => ConfigValue::Text(c.mode.clone()),
            None => ConfigValue::Null,
        })
    } else if same_text(field, "fixed_pin") {
        Some(match c {
            Some(c) => ConfigValue::Unsigned(c.fixed_pin),
            None => ConfigValue::Null,
        })
    } else if same_text(field, "device_logging_enabled") {
        Some(match c {
            Some(c) => ConfigValue::Bool(c.device_logging_enabled),
            None => ConfigValue::Null,
        })
    } else {
        None
    }
}

/// The view of the outcome of a configuration read.
pub open spec fn value_view(r: Result<ConfigValue, ConfigError>) -> Result<
    ConfigValueView,
    ConfigError,
> {
    match r {
        Ok(value) => Ok(value@),
        Err(e) => Err(e),
    }
}

/// Reads the value of a key from the cache.
pub fn get_config_value(state: &DeviceState, key: &ConfigKey) -> (r: Result<
    ConfigValue,
    ConfigError,
>)
    ensures
        value_view(r) == config_value(state@, key@),
{
    let field = key.field.as_str();
    let value = match key.category {
        ConfigCategory::Device => read_device_field(&state.device_config, field),
        ConfigCategory::Position => read_position_field(&state.position_config, field),
        ConfigCategory::Power => read_power_field(&state.power_config, field),
        ConfigCategory::Network => read_network_field(&state.network_config, field),
        ConfigCategory::Display => read_display_field(&state.display_config, field),
        ConfigCategory::Lora => read_lora_field(&state.lora_config, field),
        ConfigCategory::Bluetooth => read_bluetooth_field(&state.bluetooth_config, field),
    };
    match value {
        Some(v) => Ok(v),
        None => Err(ConfigError::UnknownField),
    }
}

/// The cached configuration, category by category.
#[derive(Debug)]
pub struct ConfigListing {
    pub device: Option<DeviceConfig>,
    pub position: Option<PositionConfig>,
    pub power: Option<PowerConfig>,
    pub network: Option<NetworkConfig>,
    pub display: Option<DisplayConfig>,
    pub lora: Option<LoraConfig>,
    pub bluetooth: Option<BluetoothConfig>,
}

pub struct ConfigListingView {
    pub device: Option<DeviceConfigView>,
    pub position: Option<PositionConfigView>,
    pub power: Option<PowerConfig>,
    pub network: Option<NetworkConfigView>,
    pub display: Option<DisplayConfigView>,
    pub lora: Option<LoraConfigView>,
    pub bluetooth: Option<BluetoothConfigView>,
}

impl View for ConfigListing {
    type V = ConfigListingView;

    open spec fn view(&self) -> ConfigListingView {
        ConfigListingView {
            device: opt_view(self.device),
            position: opt_view(self.position),
            power: self.power,
            network: opt_view(self.network),
            display: opt_view(self.display),
            lora: opt_view(self.lora),
            bluetooth: opt_view(self.bluetooth),
        }
    }
}

/// The configuration that the state has cached; none where it has cached no
/// category at all.
pub open spec fn config_listing(s: DeviceStateView) -> Option<ConfigListingView> {
    if s.device_config is None && s.position_config is None && s.power_config is None
        && s.network_config is None && s.display_config is None && s.lora_config is None
        && s.bluetooth_config is None {
        None
    } else {
        Some(
            ConfigListingView {
                device: s.device_config,
                position: s.position_config,
                power: s.power_config,
                network: s.network_config,
                display: s.display_config,
                lora: s.lora_config,
                bluetooth: s.bluetooth_config,
            },
        )
    }
}

/// A copy of all the configuration that the state has cached.
pub fn list_config(state: &DeviceState) -> (r: Option<ConfigListing>)
    ensures
        opt_view(r) == config_listing(state@),
{
    if state.device_config.is_none() && state.position_config.is_none()
        && state.power_config.is_none() && state.network_config.is_none()
        && state.display_config.is_none() && state.lora_config.is_none()
        && state.bluetooth_config.is_none() {
        None
    } else {
        Some(
            ConfigListing {
                device: state.device_config.clone(),
                position: state.position_config.clone(),
                power: state.power_config,
                network: state.network_config.clone(),
                display: state.display_config.clone(),
                lora: state.lora_config.clone(),
                bluetooth: state.bluetooth_config.clone(),
            },
        )
    }
}

/// The radio regions that can be set by name.
#[derive(Clone, Copy, Debug, PartialEq, Eq, Structural)]
pub enum RegionCode {
    Us,
    Eu433,
    Eu868,
    Cn,
    Jp,
    Anz,
    Kr,
    Tw,
    Ru,
    In,
    Nz865,
    Th,
    Ua433,
    Ua868,
    My433,
    My919,
    Sg923,
    Lora24,
}

/// The device roles that can be set by name.
#[derive(Clone, Copy, Debug, PartialEq, Eq, Structural)]
pub enum Role {
    Client,
    ClientMute,
    Router,
    RouterClient,
    Repeater,
    Tracker,
    Sensor,
    Tak,
    ClientHidden,
    LostAndFound,
    TakTracker,
}

impl RegionCode {
    /// The number under which the device knows the region.
    pub open spec fn spec_number(self) -> i32 {
        match self {
            RegionCode::Us => 1,
            RegionCode::Eu433 => 2,
            RegionCode::Eu868 => 3,
            RegionCode::Cn => 4,
            RegionCode::Jp => 5,
            RegionCode::Anz => 6,
            RegionCode::Kr => 7,
            RegionCode::Tw => 8,
            RegionCode::Ru => 9,
            RegionCode::In => 10,
            RegionCode::Nz865 => 11,
            RegionCode::Th => 12,
            RegionCode::Ua433 => 14,
            RegionCode::Ua868 => 15,
            RegionCode::My433 => 16,
            RegionCode::My919 => 17,
            RegionCode::Sg923 => 18,
            RegionCode::Lora24 => 13,
        }
    }

    /// The number under which the device knows the region.
    #[verifier::when_used_as_spec(spec_number)]
    pub fn number(self) -> (r: i32)
        ensures
            r == self.spec_number(),
    {
        match self {
            RegionCode::Us => 1,
            RegionCode::Eu433 => 2,
            RegionCode::Eu868 => 3,
            RegionCode::Cn => 4,
            RegionCode::Jp => 5,
            RegionCode::Anz => 6,
            RegionCode::Kr => 7,
            RegionCode::Tw => 8,
            RegionCode::Ru => 9,
            RegionCode::In => 10,
            RegionCode::Nz865 => 11,
            RegionCode::Th => 12,
            RegionCode::Ua433 => 14,
            RegionCode::Ua868 => 15,
            RegionCode::My433 => 16,
            RegionCode::My919 => 17,
            RegionCode::Sg923 => 18,
            RegionCode::Lora24 => 13,
        }
    }
}

impl Role {
    /// The number under which the device knows the role.
    pub open spec fn spec_number(self) -> i32 {
        match self {
            Role::Client => 0,
            Role::ClientMute => 1,
            Role::Router => 2,
            Role::RouterClient => 3,
            Role::Repeater => 4,
            Role::Tracker => 5,
            Role::Sensor => 6,
            Role::Tak => 7,
            Role::ClientHidden => 8,
            Role::LostAndFound => 9,
            Role::TakTracker => 10,
        }
    }

    /// The number under which the device knows the role.
    #[verifier::when_used_as_spec(spec_number)]
    pub fn number(self) -> (r: i32)
        ensures
            r == self.spec_number(),
    {
        match self {
            Role::Client => 0,
            Role::ClientMute => 1,
            Role::Router => 2,
            Role::RouterClient => 3,
            Role::Repeater => 4,
            Role::Tracker => 5,
            Role::Sensor => 6,
            Role::Tak => 7,
            Role::ClientHidden => 8,
            Role::LostAndFound => 9,
            Role::TakTracker => 10,
        }
    }
}

/// The region that a name in upper case stands for.
pub open spec fn region_named(upper: Seq<char>) -> Option<RegionCode> {
    if upper == "US"@ || upper == "US915"@ {
        Some(RegionCode::Us)
    } else if upper == "EU"@ || upper == "EU433"@ {
        Some(RegionCode::Eu433)
    } else if upper == "EU868"@ || upper == "EU_868"@ {
        Some(RegionCode::Eu868)
    } else if upper == "CN"@ {
        Some(RegionCode::Cn)
    } else if upper == "JP"@ {
        Some(RegionCode::Jp)
    } else if upper == "ANZ"@ {
        Some(RegionCode::Anz)
    } else if upper == "KR"@ {
        Some(RegionCode::Kr)
    } else if upper == "TW"@ {
        Some(RegionCode::Tw)
    } else if upper == "RU"@ {
        Some(RegionCode::Ru)
    } else if upper == "IN"@ {
        Some(RegionCode::In)
    } else if upper == "NZ865"@ || upper == "NZ_865"@ {
        Some(RegionCode::Nz865)
    } else if upper == "TH"@ {
        Some(RegionCode::Th)
    } else if upper == "UA433"@ || upper == "UA_433"@ {
        Some(RegionCode::Ua433)
    } else if upper == "UA868"@ || upper == "UA_868"@ {
        Some(RegionCode::Ua868)
    } else if upper == "MY_433"@ {
        Some(RegionCode::My433)
    } else if upper == "MY_919"@ {
        Some(RegionCode::My919)
    } else if upper == "SG_923"@ {
        Some(RegionCode::Sg923)
    } else if upper == "LORA_24"@ {
        Some(RegionCode::Lora24)
    } else {
        None
    }
}

/// The role that a name in upper case stands for.
pub open spec fn role_named(upper: Seq<char>) -> Option<Role> {
    if upper == "CLIENT"@ {
        Some(Role::Client)
    } else if upper == "CLIENT_MUTE"@ {
        Some(Role::ClientMute)
    } else if upper == "ROUTER"@ {
        Some(Role::Router)
    } else if upper == "ROUTER_CLIENT"@ {
        Some(Role::RouterClient)
    } else if upper == "REPEATER"@ {
        Some(Role::Repeater)
    } else if upper == "TRACKER"@ {
        Some(Role::Tracker)
    } else if upper == "SENSOR"@ {
        Some(Role::Sensor)
    } else if upper == "TAK"@ {
        Some(Role::Tak)
    } else if upper == "CLIENT_HIDDEN"@ {
        Some(Role::ClientHidden)
    } else if upper == "LOST_AND_FOUND"@ {
        Some(Role::LostAndFound)
    } else if upper == "TAK_TRACKER"@ {
        Some(Role::TakTracker)
    } else {
        None
    }
}

/// Reads a name in upper case as a region.
pub fn region_from_upper(upper: &str) -> (r: Option<RegionCode>)
    ensures
        r == region_named(upper@),
{
    if same_text(upper, "US") || same_text(upper, "US915") {
        Some(RegionCode::Us)
    } else if same_text(upper, "EU") || same_text(upper, "EU433") {
        Some(RegionCode::Eu433)
    } else if same_text(upper, "EU868") || same_text(upper, "EU_868") {
        Some(RegionCode::Eu868)
    } else if same_text(upper, "CN") {
        Some(RegionCode::Cn)
    } else if same_text(upper, "JP") {
        Some(RegionCode::Jp)
    } else if same_text(upper, "ANZ") {
        Some(RegionCode::Anz)
    } else if same_text(upper, "KR") {
        Some(RegionCode::Kr)
    } else if same_text(upper, "TW") {
        Some(RegionCode::Tw)
    } else if same_text(upper, "RU") {
        Some(RegionCode::Ru)
    } else if same_text(upper, "IN") {
        Some(RegionCode::In)
    } else if same_text(upper, "NZ865") || same_text(upper, "NZ_865") {
        Some(RegionCode::Nz865)
    } else if same_text(upper, "TH") {
        Some(RegionCode::Th)
    } else if same_text(upper, "UA433") || same_text(upper, "UA_433") {
        Some(RegionCode::Ua433)
    } else if same_text(upper, "UA868") || same_text(upper, "UA_868") {
        Some(RegionCode::Ua868)
    } else if same_text(upper, "MY_433") {
        Some(RegionCode::My433)
    } else if same_text(upper, "MY_919") {
        Some(RegionCode::My919)
    } else if same_text(upper, "SG_923") {
        Some(RegionCode::Sg923)
    } else if same_text(upper, "LORA_24") {
        Some(RegionCode::Lora24)
    } else {
        None
    }
}

/// Reads a name in upper case as a role.
pub fn role_from_upper(upper: &str) -> (r: Option<Role>)
    ensures
        r == role_named(upper@),
{
    if same_text(upper, "CLIENT") {
        Some(Role::Client)
    } else if same_text(upper, "CLIENT_MUTE") {
        Some(Role::ClientMute)
    } else if same_text(upper, "ROUTER") {
        Some(Role::Router)
    } else if same_text(upper, "ROUTER_CLIENT") {
        Some(Role::RouterClient)
    } else if same_text(upper, "REPEATER") {
        Some(Role::Repeater)
    } else if same_text(upper, "TRACKER") {
        Some(Role::Tracker)
    } else if same_text(upper, "SENSOR") {
        Some(Role::Sensor)
    } else if same_text(upper, "TAK") {
        Some(Role::Tak)
    } else if same_text(upper, "CLIENT_HIDDEN") {
        Some(Role::ClientHidden)
    } else if same_text(upper, "LOST_AND_FOUND") {
        Some(Role::LostAndFound)
    } else if same_text(upper, "TAK_TRACKER") {
        Some(Role::TakTracker)
    } else {
        None
    }
}

/// Reads a region name, in any mix of upper and lower case.
pub fn parse_region(value: &str) -> (r: Result<RegionCode, ConfigError>)
    ensures
        r == match region_named(uppercased(value@)) {
            Some(region) => Ok::<RegionCode, ConfigError>(region),
            None => Err::<RegionCode, ConfigError>(ConfigError::UnknownRegion),
        },
{
    let upper = to_upper(value);
    match region_from_upper(upper.as_str()) {
        Some(region) => Ok(region),
        None => Err(ConfigError::UnknownRegion),
    }
}

/// Reads a role name, in any mix of upper and lower case.
pub fn parse_role(value: &str) -> (r: Result<Role, ConfigError>)
    ensures
        r == match role_named(uppercased(value@)) {
            Some(role) => Ok::<Role, ConfigError>(role),
            None => Err::<Role, ConfigError>(ConfigError::UnknownRole),
        },
{
    let upper = to_upper(value);
    match role_from_upper(upper.as_str()) {
        Some(role) => Ok(role),
        None => Err(ConfigError::UnknownRole),
    }
}

/// A change of the configuration that can be sent.
#[derive(Clone, Copy, Debug, PartialEq, Eq, Structural)]
pub enum ConfigChange {
    Region(RegionCode),
    DeviceRole(Role),
}

/// The change that a key and a value ask for, given the value in upper
/// case: the region of the radio and the role of the device are the two
/// fields that can be changed.
pub open spec fn change_named(key: Seq<char>, upper: Seq<char>) -> Result<
    ConfigChange,
    ConfigError,
> {
    match key_parts(key) {
        None => Err(ConfigError::InvalidKeyFormat),
        Some((category, field)) => if category == "lora"@ {
            if field == "region"@ {
                match region_named(upper) {
                    Some(region) => Ok(ConfigChange::Region(region)),
                    None => Err(ConfigError::UnknownRegion),
                }
            } else {
                Err(ConfigError::UnknownField)
            }
        } else if category == "device"@ {
            if field == "role"@ {
                match role_named(upper) {
                    Some(role) => Ok(ConfigChange::DeviceRole(role)),
                    None => Err(ConfigError::UnknownRole),
                }
            } else {
                Err(ConfigError::UnknownField)
            }
        } else {
            Err(ConfigError::NotImplemented)
        },
    }
}

/// Reads a key and a value as a change of the configuration.
pub fn parse_change(key: &str, value: &str) -> (r: Result<ConfigChange, ConfigError>)
    ensures
        r == change_named(key@, uppercased(value@)),
{
    let (category, field) = match split_key(key) {
        Ok(parts) => parts,
        Err(e) => {
            return Err(e);
        },
    };
    if same_text(category.as_str(), "lora") {
        if same_text(field.as_str(), "region") {
            match parse_region(value) {
                Ok(region) => Ok(ConfigChange::Region(region)),
                Err(e) => Err(e),
            }
        } else {
            Err(ConfigError::UnknownField)
        }
    } else if same_text(category.as_str(), "device") {
        if same_text(field.as_str(), "role") {
            match parse_role(value) {
                Ok(role) => Ok(ConfigChange::DeviceRole(role)),
                Err(e) => Err(e),
            }
        } else {
            Err(ConfigError::UnknownField)
        }
    } else {
        Err(ConfigError::NotImplemented)
    }
}

/// The packet that carries a change to the device.
pub open spec fn change_packet(change: ConfigChange, passkey: Seq<u8>) -> RawPacketView {
    match change {
        ConfigChange::Region(region) => admin_packet(
            region_change_bytes(region.number(), passkey),
        ),
        ConfigChange::DeviceRole(role) => admin_packet(role_change_bytes(role.number(), passkey)),
    }
}

/// Builds the packet that carries a change to the device.
pub fn change_request(change: ConfigChange, passkey: Vec<u8>) -> (r: RawPacket)
    ensures
        r@ == change_packet(change, passkey@),
{
    match change {
        ConfigChange::Region(region) => build_admin_packet(
            encode_region_change(region.number(), passkey),
        ),
        ConfigChange::DeviceRole(role) => build_admin_packet(
            encode_role_change(role.number(), passkey),
        ),
    }
}

/// The view of the outcome of building a change.
pub open spec fn packet_view(r: Result<RawPacket, ConfigError>) -> Result<
    RawPacketView,
    ConfigError,
> {
    match r {
        Ok(packet) => Ok(packet@),
        Err(e) => Err(e),
    }
}

/// Builds the packet that sets the value of a key. Nothing confirms that
/// the device has applied it.
pub fn set_config_value(key: &str, value: &str, passkey: Vec<u8>) -> (r: Result<
    RawPacket,
    ConfigError,
>)
    ensures
        packet_view(r) == match change_named(key@, uppercased(value@)) {
            Ok(change) => Ok::<RawPacketView, ConfigError>(change_packet(change, passkey@)),
            Err(e) => Err::<RawPacketView, ConfigError>(e),
        },
{
    match parse_change(key, value) {
        Ok(change) => Ok(change_request(change, passkey)),
        Err(e) => Err(e),
    }
}

} // verus!
