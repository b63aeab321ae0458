//! The names of the protocol's enumerated values, as the codec prints them.
//! The codec is the meshtastic crate. Each function with an unverified body
//! here reads a number as a value of one enumeration, with the codec's own
//! accessor, and prints the value as the codec's `Debug` does. Its contract
//! is taken on trust. For the enumerations of two or three values the
//! contract spells the names out; for the long ones it says that the text
//! depends on the number alone, and gives it a name. A number that the codec
//! does not know is read as the enumeration's default, which is its first
//! value.

use meshtastic::protobufs;
use vstd::prelude::*;

verus! {

/// The codec's name of a hardware model.
pub uninterp spec fn hardware_model_name(code: i32) -> Seq<char>;

/// `User::hw_model` of the codec, printed by its `Debug`. Taken on
/// trust: the text is the name that the codec gives to the number.
#[verifier::external_body]
pub(crate) fn hardware_model_text(code: i32) -> (r: String)
    ensures
        r@ == hardware_model_name(code),
{
    format!("{:?}", protobufs::User { hw_model: code, ..Default::default() }.hw_model())
}

/// The codec's name of a channel role: the roles are disabled, primary and
/// secondary, with the numbers 0, 1 and 2.
pub open spec fn channel_role_name(code: i32) -> Seq<char> {
    if code == 1 {
        "Primary"@
    } else if code == 2 {
        "Secondary"@
    } else {
        "Disabled"@
    }
}

/// `Channel::role` of the codec, printed by its `Debug`. Taken on trust: the
/// codec reads the numbers 1 and 2 as the primary and the secondary role and
/// every other number as the disabled one, and prints each by its name.
#[verifier::external_body]
pub(crate) fn channel_role_text(code: i32) -> (r: String)
    ensures
        r@ == channel_role_name(code),
{
    format!("{:?}", protobufs::Channel { role: code, ..Default::default() }.role())
}

/// The codec's name of a device role.
pub uninterp spec fn device_role_name(code: i32) -> Seq<char>;

/// `DeviceConfig::role` of the codec, printed by its `Debug`. Taken on
/// trust: the text is the name that the codec gives to the number.
#[verifier::external_body]
pub(crate) fn device_role_text(code: i32) -> (r: String)
    ensures
        r@ == device_role_name(code),
{
    format!("{:?}", protobufs::config::DeviceConfig { role: code, ..Default::default() }.role())
}

/// The codec's name of a rebroadcast mode.
pub uninterp spec fn rebroadcast_mode_name(code: i32) -> Seq<char>;

/// `DeviceConfig::rebroadcast_mode` of the codec, printed by its `Debug`. Taken on
/// trust: the text is the name that the codec gives to the number.
#[verifier::external_body]
pub(crate) fn rebroadcast_mode_text(code: i32) -> (r: String)
    ensures
        r@ == rebroadcast_mode_name(code),
{
    let config = protobufs::config::DeviceConfig { rebroadcast_mode: code, ..Default::default() };
    format!("{:?}", config.rebroadcast_mode())
}

/// The codec's name of a GPS mode: the modes are disabled, enabled and not
/// present, with the numbers 0, 1 and 2.
pub open spec fn gps_mode_name(code: i32) -> Seq<char> {
    if code == 1 {
        "Enabled"@
    } else if code == 2 {
        "NotPresent"@
    } else {
        "Disabled"@
    }
}

/// `PositionConfig::gps_mode` of the codec, printed by its `Debug`. Taken on
/// trust: the codec reads the numbers 1 and 2 as the enabled and the
/// not-present mode and every other number as the disabled one, and prints
/// each by its name.
#[verifier::external_body]
pub(crate) fn gps_mode_text(code: i32) -> (r: String)
    ensures
        r@ == gps_mode_name(code),
{
    let config = protobufs::config::PositionConfig { gps_mode: code, ..Default::default() };
    format!("{:?}", config.gps_mode())
}

/// Whether a GPS mode is other than disabled: of the three modes, disabled
/// has the number 0, enabled 1 and not-present 2, and any other number reads
/// as disabled.
pub open spec fn gps_mode_is_on(code: i32) -> bool {
    code == 1 || code == 2
}

/// Whether the GPS counts as enabled in a mode: in every mode but the
/// disabled one.
pub fn gps_mode_enabled(code: i32) -> (r: bool)
    ensures
        r == gps_mode_is_on(code),
{
    code == 1 || code == 2
}

/// The codec's name of a GPS coordinate format.
pub uninterp spec fn gps_format_name(code: i32) -> Seq<char>;

/// `DisplayConfig::gps_format` of the codec, printed by its `Debug`. Taken on
/// trust: the text is the name that the codec gives to the number.
#[verifier::external_body]
#[allow(deprecated)]
pub(crate) fn gps_format_text(code: i32) -> (r: String)
    ensures
        r@ == gps_format_name(code),
{
    let config = protobufs::config::DisplayConfig { gps_format: code, ..Default::default() };
    format!("{:?}", config.gps_format())
}

/// The codec's name of a display unit system: metric and imperial, with
/// the numbers 0 and 1.
pub open spec fn display_units_name(code: i32) -> Seq<char> {
    if code == 1 {
        "Imperial"@
    } else {
        "Metric"@
    }
}

/// `DisplayConfig::units` of the codec, printed by its `Debug`. Taken on
/// trust: the codec reads the number 1 as imperial and every other number as
/// metric, and prints each by its name.
#[verifier::external_body]
pub(crate) fn display_units_text(code: i32) -> (r: String)
    ensures
        r@ == display_units_name(code),
{
    let config = protobufs::config::DisplayConfig { units: code, ..Default::default() };
    format!("{:?}", config.units())
}

/// The codec's name of a display mode.
pub uninterp spec fn display_mode_name(code: i32) -> Seq<char>;

/// `DisplayConfig::displaymode` of the codec, printed by its `Debug`. Taken on
/// trust: the text is the name that the codec gives to the number.
#[verifier::external_body]
pub(crate) fn display_mode_text(code: i32) -> (r: String)
    ensures
        r@ == display_mode_name(code),
{
    let config = protobufs::config::DisplayConfig { displaymode: code, ..Default::default() };
    format!("{:?}", config.displaymode())
}

/// The codec's name of a modem preset.
pub uninterp spec fn modem_preset_name(code: i32) -> Seq<char>;

/// `LoRaConfig::modem_preset` of the codec, printed by its `Debug`. Taken on
/// trust: the text is the name that the codec gives to the number.
#[verifier::external_body]
pub(crate) fn modem_preset_text(code: i32) -> (r: String)
    ensures
        r@ == modem_preset_name(code),
{
    let config = protobufs::config::LoRaConfig { modem_preset: code, ..Default::default() };
    format!("{:?}", config.modem_preset())
}

/// The codec's name of a radio region.
pub uninterp spec fn region_name(code: i32) -> Seq<char>;

/// `LoRaConfig::region` of the codec, printed by its `Debug`. Taken on
/// trust: the text is the name that the codec gives to the number.
#[verifier::external_body]
pub(crate) fn region_text(code: i32) -> (r: String)
    ensures
        r@ == region_name(code),
{
    let config = protobufs::config::LoRaConfig { region: code, ..Default::default() };
    format!("{:?}", config.region())
}

/// The codec's name of a Bluetooth pairing mode: random pin, fixed pin and
/// no pin, with the numbers 0, 1 and 2.
pub open spec fn pairing_mode_name(code: i32) -> Seq<char> {
    if code == 1 {
        "FixedPin"@
    } else if code == 2 {
        "NoPin"@
    } else {
        "RandomPin"@
    }
}

/// `BluetoothConfig::mode` of the codec, printed by its `Debug`. Taken on
/// trust: the codec reads the numbers 1 and 2 as the fixed-pin and the
/// no-pin mode and every other number as the random-pin one, and prints
/// each by its name.
#[verifier::external_body]
pub(crate) fn pairing_mode_text(code: i32) -> (r: String)
    ensures
        r@ == pairing_mode_name(code),
{
    let config = protobufs::config::BluetoothConfig { mode: code, ..Default::default() };
    format!("{:?}", config.mode())
}

/// The four addresses of a static IPv4 setup.
#[derive(Clone, Copy, Debug, PartialEq, Eq, Structural)]
pub struct Ipv4Setup {
    pub ip: u32,
    pub gateway: u32,
    pub subnet: u32,
    pub dns: u32,
}

/// The codec's rendering of a static IPv4 setup.
pub uninterp spec fn ipv4_setup_name(setup: Ipv4Setup) -> Seq<char>;

/// `Debug` of the codec's `IpV4Config`. Taken on trust: the text depends
/// on the four addresses alone.
#[verifier::external_body]
pub(crate) fn ipv4_setup_text(setup: Ipv4Setup) -> (r: String)
    ensures
        r@ == ipv4_setup_name(setup),
{
    let Ipv4Setup { ip, gateway, subnet, dns } = setup;
    format!("{:?}", protobufs::config::network_config::IpV4Config { ip, gateway, subnet, dns })
}

} // verus!
