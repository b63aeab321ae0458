//! The boundary to the message codec on the way out: the bytes that the
//! codec, which is the meshtastic crate, makes of each request this library
//! sends. Each function here builds one admin message of the codec and has
//! it encoded; its contract is taken on trust, and says that the bytes
//! depend on the arguments alone, by giving them a name.

use meshtastic::protobufs;
use meshtastic::protobufs::admin_message::PayloadVariant as AdminVariant;
use meshtastic::protobufs::config::PayloadVariant as ConfigVariant;
use meshtastic::Message;
use vstd::prelude::*;

verus! {

/// The bytes of an admin message that asks for the configuration of one
/// category.
pub uninterp spec fn config_request_bytes(config_type: i32, passkey: Seq<u8>) -> Seq<u8>;

/// `AdminMessage::encode_to_vec` of the codec, for a configuration read. Taken on
/// trust: the bytes are those that the codec makes of this message.
#[verifier::external_body]
pub(crate) fn encode_config_request(config_type: i32, passkey: Vec<u8>) -> (r: Vec<u8>)
    ensures
        r@ == config_request_bytes(config_type, passkey@),
{
    protobufs::AdminMessage {
        payload_variant: Some(AdminVariant::GetConfigRequest(config_type)),
        session_passkey: passkey,
    }.encode_to_vec()
}

/// The bytes of an admin message that sets the radio region and leaves
/// every other radio setting at its default.
pub uninterp spec fn region_change_bytes(region: i32, passkey: Seq<u8>) -> Seq<u8>;

/// `AdminMessage::encode_to_vec` of the codec, for a change of the region. Taken on
/// trust: the bytes are those that the codec makes of this message.
#[verifier::external_body]
pub(crate) fn encode_region_change(region: i32, passkey: Vec<u8>) -> (r: Vec<u8>)
    ensures
        r@ == region_change_bytes(region, passkey@),
{
    let lora = protobufs::config::LoRaConfig { region, ..Default::default() };
    let config = protobufs::Config { payload_variant: Some(ConfigVariant::Lora(lora)) };
    protobufs::AdminMessage {
        payload_variant: Some(AdminVariant::SetConfig(config)),
        session_passkey: passkey,
    }.encode_to_vec()
}

/// The bytes of an admin message that sets the device role and leaves every
/// other device setting at its default.
pub uninterp spec fn role_change_bytes(role: i32, passkey: Seq<u8>) -> Seq<u8>;

/// `AdminMessage::encode_to_vec` of the codec, for a change of the role. Taken on
/// trust: the bytes are those that the codec makes of this message.
#[verifier::external_body]
pub(crate) fn encode_role_change(role: i32, passkey: Vec<u8>) -> (r: Vec<u8>)
    ensures
        r@ == role_change_bytes(role, passkey@),
{
    let device = protobufs::config::DeviceConfig { role, ..Default::default() };
    let config = protobufs::Config { payload_variant: Some(ConfigVariant::Device(device)) };
    protobufs::AdminMessage {
        payload_variant: Some(AdminVariant::SetConfig(config)),
        session_passkey: passkey,
    }.encode_to_vec()
}

/// The bytes of an admin message that defines a channel with a role, a
/// name and a key, and every other setting at its default.
pub uninterp spec fn channel_change_bytes(
    index: i32,
    role: i32,
    name: Seq<char>,
    psk: Seq<u8>,
    passkey: Seq<u8>,
) -> Seq<u8>;

/// `AdminMessage::encode_to_vec` of the codec, for a channel definition.
/// Taken on trust: the bytes are those that the codec makes of this message.
#[verifier::external_body]
pub(crate) fn encode_channel_change(
    index: i32,
    role: i32,
    name: String,
    psk: Vec<u8>,
    passkey: Vec<u8>,
) -> (r: Vec<u8>)
    ensures
        r@ == channel_change_bytes(index, role, name@, psk@, passkey@),
{
    let settings = protobufs::ChannelSettings { name, psk, ..Default::default() };
    let channel = protobufs::Channel { index, settings: Some(settings), role };
    protobufs::AdminMessage {
        payload_variant: Some(AdminVariant::SetChannel(channel)),
        session_passkey: passkey,
    }.encode_to_vec()
}

/// The bytes of an admin message that removes an entry by its number.
pub uninterp spec fn removal_bytes(number: u32, passkey: Seq<u8>) -> Seq<u8>;

/// `AdminMessage::encode_to_vec` of the codec, for a removal by number. Taken on
/// trust: the bytes are those that the codec makes of this message.
#[verifier::external_body]
pub(crate) fn encode_removal(number: u32, passkey: Vec<u8>) -> (r: Vec<u8>)
    ensures
        r@ == removal_bytes(number, passkey@),
{
    protobufs::AdminMessage {
        payload_variant: Some(AdminVariant::RemoveByNodenum(number)),
        session_passkey: passkey,
    }.encode_to_vec()
}

/// The bytes of an admin message that reboots the device after a delay.
pub uninterp spec fn reboot_bytes(seconds: i32, passkey: Seq<u8>) -> Seq<u8>;

/// `AdminMessage::encode_to_vec` of the codec, for a reboot. Taken on
/// trust: the bytes are those that the codec makes of this message.
#[verifier::external_body]
pub(crate) fn encode_reboot(seconds: i32, passkey: Vec<u8>) -> (r: Vec<u8>)
    ensures
        r@ == reboot_bytes(seconds, passkey@),
{
    protobufs::AdminMessage {
        payload_variant: Some(AdminVariant::RebootSeconds(seconds)),
        session_passkey: passkey,
    }.encode_to_vec()
}

/// The bytes of an admin message that shuts the device down after a delay.
pub uninterp spec fn shutdown_bytes(seconds: i32, passkey: Seq<u8>) -> Seq<u8>;

/// `AdminMessage::encode_to_vec` of the codec, for a shutdown. Taken on
/// trust: the bytes are those that the codec makes of this message.
#[verifier::external_body]
pub(crate) fn encode_shutdown(seconds: i32, passkey: Vec<u8>) -> (r: Vec<u8>)
    ensures
        r@ == shutdown_bytes(seconds, passkey@),
{
    protobufs::AdminMessage {
        payload_variant: Some(AdminVariant::ShutdownSeconds(seconds)),
        session_passkey: passkey,
    }.encode_to_vec()
}

/// The bytes of an admin message that resets the device to its factory
/// state.
pub uninterp spec fn factory_reset_bytes(argument: i32, passkey: Seq<u8>) -> Seq<u8>;

/// `AdminMessage::encode_to_vec` of the codec, for a factory reset. Taken on
/// trust: the bytes are those that the codec makes of this message.
#[verifier::external_body]
pub(crate) fn encode_factory_reset(argument: i32, passkey: Vec<u8>) -> (r: Vec<u8>)
    ensures
        r@ == factory_reset_bytes(argument, passkey@),
{
    protobufs::AdminMessage {
        payload_variant: Some(AdminVariant::FactoryResetDevice(argument)),
        session_passkey: passkey,
    }.encode_to_vec()
}

} // verus!
