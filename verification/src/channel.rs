//! Channels: the listing of those that the state knows, and the requests
//! that define or remove one.

use vstd::prelude::*;
use vstd::string::*;
use vstd::utf8::encode_utf8;
use crate::encode::channel_change_bytes;
use crate::encode::encode_channel_change;
use crate::encode::encode_removal;
use crate::encode::removal_bytes;
use crate::outbound::admin_packet;
use crate::outbound::build_admin_packet;
use crate::outbound::RawPacket;
use crate::views::seq_view;
use crate::state::DeviceState;

verus! {

/// The number of the role of a primary channel.
pub const PRIMARY_ROLE: i32 = 1;

/// A channel as a listing shows it.
#[derive(Debug)]
pub struct ChannelInfo {
    pub index: u32,
    pub name: String,
    pub role: String,
    pub has_psk: bool,
}

pub struct ChannelInfoView {
    pub index: u32,
    pub name: Seq<char>,
    pub role: Seq<char>,
    pub has_psk: bool,
}

impl View for ChannelInfo {
    type V = ChannelInfoView;

    open spec fn view(&self) -> ChannelInfoView {
        ChannelInfoView {
            index: self.index,
            name: self.name@,
            role: self.role@,
            has_psk: self.has_psk,
        }
    }
}

/// What a listing shows of a cached channel: everything but its settings.
pub open spec fn listed_channel(channel: crate::records::ChannelInfoView) -> ChannelInfoView {
    ChannelInfoView {
        index: channel.index,
        name: channel.name,
        role: channel.role,
        has_psk: channel.has_psk,
    }
}

/// The bytes of a key given as text; none where no key is given.
pub open spec fn key_bytes(psk: Option<Seq<char>>) -> Seq<u8> {
    match psk {
        Some(key) => encode_utf8(key),
        None => Seq::empty(),
    }
}

/// The text given, or the empty text.
pub open spec fn text_or_empty(text: Option<Seq<char>>) -> Seq<char> {
    match text {
        Some(t) => t,
        None => Seq::empty(),
    }
}

/// The view of an optional text slice.
pub open spec fn opt_str(text: Option<&str>) -> Option<Seq<char>> {
    match text {
        Some(t) => Some(t@),
        None => None,
    }
}

/// The channels that the state knows, in their order.
pub fn list_channels(state: &DeviceState) -> (r: Vec<ChannelInfo>)
    ensures
        seq_view(r@) == state@.channels.map_values(
            |c: crate::records::ChannelInfoView| listed_channel(c),
        ),
{
    let mut channels: Vec<ChannelInfo> = Vec::new();
    let mut i: usize = 0;
    while i < state.channels.len()
        invariant
            i <= state.channels.len(),
            channels@.len() == i,
            forall|j: int|
                0 <= j < i ==> (#[trigger] channels@[j])@ == listed_channel(state@.channels[j]),
        decreases state.channels.len() - i,
    {
        let channel = &state.channels[i];
        channels.push(
            ChannelInfo {
                index: channel.index,
                name: channel.name.clone(),
                role: channel.role.clone(),
                has_psk: channel.has_psk,
            },
        );
        i = i + 1;
    }
    assert(seq_view(channels@) =~= state@.channels.map_values(
        |c: crate::records::ChannelInfoView| listed_channel(c),
    ));
    channels
}

/// The bytes of a key given as text.
fn key_to_bytes(psk: Option<&str>) -> (r: Vec<u8>)
    ensures
        r@ == key_bytes(opt_str(psk)),
{
    match psk {
        Some(key) => key.as_bytes_vec(),
        None => Vec::new(),
    }
}

/// Builds the request that adds a channel with a name and, where one is
/// given, a key. The channel is sent as a primary channel at the index
/// zero, and without a session key.
pub fn add_channel(name: &str, psk: Option<&str>) -> (r: RawPacket)
    ensures
        r@ == admin_packet(
            channel_change_bytes(
                0,
                PRIMARY_ROLE,
                name@,
                key_bytes(opt_str(psk)),
                Seq::<u8>::empty(),
            ),
        ),
{
    build_admin_packet(
        encode_channel_change(
            0,
            PRIMARY_ROLE,
            String::from_str(name),
            key_to_bytes(psk),
            Vec::new(),
        ),
    )
}

/// Builds the request that deletes the channel with the given index. It is
/// sent without a session key.
pub fn delete_channel(index: u32) -> (r: RawPacket)
    ensures
        r@ == admin_packet(removal_bytes(index, Seq::<u8>::empty())),
{
    build_admin_packet(encode_removal(index, Vec::new()))
}

/// Builds the request that sets the name and the key of the channel with
/// the given index; what is not given is set to empty. The channel is sent
/// as a primary channel, and without a session key.
pub fn set_channel(index: u32, name: Option<&str>, psk: Option<&str>) -> (r: RawPacket)
    ensures
        r@ == admin_packet(
            channel_change_bytes(
                index as i32,
                PRIMARY_ROLE,
                text_or_empty(opt_str(name)),
                key_bytes(opt_str(psk)),
                Seq::<u8>::empty(),
            ),
        ),
{
    let name = match name {
        Some(n) => String::from_str(n),
        None => String::new(),
    };
    build_admin_packet(
        encode_channel_change(
            #[verifier::truncate]
            (index as i32),
            PRIMARY_ROLE,
            name,
            key_to_bytes(psk),
            Vec::new(),
        ),
    )
}

} // verus!
