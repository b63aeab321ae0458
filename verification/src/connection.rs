//! The connection: which transport an address stands for.

use vstd::prelude::*;
use vstd::string::*;

verus! {

/// The milliseconds that a fresh connection gives the ingestion to take in
/// what the device sends first.
pub const STARTUP_SETTLE_MILLIS: u64 = 500;

/// The transport over which the device is reached.
#[derive(Debug)]
pub enum Transport {
    /// Bluetooth, to the device with the given address or name.
    Bluetooth(String),
    /// TCP, to the given host and port.
    Tcp(String),
    /// The serial port of the given name.
    Serial(String),
    /// The first serial port that is found.
    AutoDetect,
}

pub enum TransportView {
    Bluetooth(Seq<char>),
    Tcp(Seq<char>),
    Serial(Seq<char>),
    AutoDetect,
}

impl View for Transport {
    type V = TransportView;

    open spec fn view(&self) -> TransportView {
        match self {
            Transport::Bluetooth(address) => TransportView::Bluetooth(address@),
            Transport::Tcp(address) => TransportView::Tcp(address@),
            Transport::Serial(port) => TransportView::Serial(port@),
            Transport::AutoDetect => TransportView::AutoDetect,
        }
    }
}

/// Whether `text` begins with `prefix`.
pub open spec fn begins_with(text: Seq<char>, prefix: Seq<char>) -> bool {
    prefix.len() <= text.len() && text.subrange(0, prefix.len() as int) == prefix
}

/// Whether a port name is a network address: it holds a colon, or begins
/// like an address of a private network.
pub open spec fn is_network_address(port: Seq<char>) -> bool {
    port.contains(':') || begins_with(port, "192."@) || begins_with(port, "10."@)
}

/// The transport that the settings of a connection ask for: Bluetooth where
/// a Bluetooth address is given, else the port as a network address or as a
/// serial port, and the first serial port found where nothing is given.
pub open spec fn transport_for(port: Option<Seq<char>>, ble: Option<Seq<char>>) -> TransportView {
    match ble {
        Some(address) => TransportView::Bluetooth(address),
        None => match port {
            Some(p) => if is_network_address(p) {
                TransportView::Tcp(p)
            } else {
                TransportView::Serial(p)
            },
            None => TransportView::AutoDetect,
        },
    }
}

/// Whether `text` holds the character `wanted`.
pub fn holds_char(text: &str, wanted: char) -> (r: bool)
    ensures
        r == text@.contains(wanted),
{
    let len = text.unicode_len();
    let mut i: usize = 0;
    while i < len
        invariant
            i <= len,
            len == text@.len(),
            forall|j: int| 0 <= j < i ==> text@[j] != wanted,
        decreases len - i,
    {
        if text.get_char(i) == wanted {
            return true;
        }
        i = i + 1;
    }
    false
}

/// Whether `text` begins with `prefix`.
pub fn starts_with(text: &str, prefix: &str) -> (r: bool)
    ensures
        r == begins_with(text@, prefix@),
{
    let len = prefix.unicode_len();
    if len > text.unicode_len() {
        return false;
    }
    let head = String::from_str(text.substring_char(0, len));
    let wanted = String::from_str(prefix);
    head == wanted
}

/// Chooses the transport for the settings of a connection.
pub fn choose_transport(port: &Option<String>, ble: &Option<String>) -> (r: Transport)
    ensures
        r@ == transport_for(crate::views::opt_view(*port), crate::views::opt_view(*ble)),
{
    match ble {
        Some(address) => Transport::Bluetooth(address.clone()),
        None => match port {
            Some(p) => {
                if holds_char(p.as_str(), ':') || starts_with(p.as_str(), "192.") || starts_with(
                    p.as_str(),
                    "10.",
                ) {
                    Transport::Tcp(p.clone())
                } else {
                    Transport::Serial(p.clone())
                }
            },
            None => Transport::AutoDetect,
        },
    }
}

} // verus!
