//! Device administration: the requests that reboot, reset or shut down the
//! connected device.

use vstd::prelude::*;
use crate::encode::encode_factory_reset;
use crate::encode::encode_reboot;
use crate::encode::encode_shutdown;
use crate::encode::factory_reset_bytes;
use crate::encode::reboot_bytes;
use crate::encode::shutdown_bytes;
use crate::outbound::admin_packet;
use crate::outbound::build_admin_packet;
use crate::outbound::RawPacket;

verus! {

/// The argument with which a factory reset is asked for.
pub const FACTORY_RESET_ARGUMENT: i32 = 1;

/// The seconds that the device waits before it reboots or shuts down where
/// the caller names no delay.
pub const DEFAULT_DELAY_SECS: i32 = 5;

/// The delay asked for, or the default.
pub open spec fn delay_or_default(delay_seconds: Option<i32>) -> i32 {
    match delay_seconds {
        Some(delay) => delay,
        None => DEFAULT_DELAY_SECS,
    }
}

/// Builds the request that reboots the device after a delay. It is sent
/// without a session key.
pub fn reboot_device(delay_seconds: Option<i32>) -> (r: RawPacket)
    ensures
        r@ == admin_packet(reboot_bytes(delay_or_default(delay_seconds), Seq::<u8>::empty())),
{
    let delay = match delay_seconds {
        Some(delay) => delay,
        None => DEFAULT_DELAY_SECS,
    };
    build_admin_packet(encode_reboot(delay, Vec::new()))
}

/// Builds the request that resets the device to its factory state. This
/// erases all settings of the device and cannot be undone.
pub fn factory_reset_device() -> (r: RawPacket)
    ensures
        r@ == admin_packet(factory_reset_bytes(FACTORY_RESET_ARGUMENT, Seq::<u8>::empty())),
{
    build_admin_packet(encode_factory_reset(FACTORY_RESET_ARGUMENT, Vec::new()))
}

/// Builds the request that shuts the device down after a delay. It is sent
/// without a session key.
pub fn shutdown_device(delay_seconds: Option<i32>) -> (r: RawPacket)
    ensures
        r@ == admin_packet(shutdown_bytes(delay_or_default(delay_seconds), Seq::<u8>::empty())),
{
    let delay = match delay_seconds {
        Some(delay) => delay,
        None => DEFAULT_DELAY_SECS,
    };
    build_admin_packet(encode_shutdown(delay, Vec::new()))
}

} // verus!
