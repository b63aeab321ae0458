//! The inbound envelopes as the transport hands them over, reduced to the
//! plain values that the ingestion reads.

use vstd::prelude::*;
use crate::records::ChannelSettings;
use crate::records::ChannelSettingsView;
use crate::records::Ieee32;
use crate::views::opt_view;

verus! {

/// What a node-identity envelope says of the node's owner.
#[derive(Debug)]
pub struct UserUpdate {
    pub id: String,
    pub long_name: String,
    pub short_name: String,
    /// The number of the hardware model.
    pub hw_model: i32,
}

pub struct UserUpdateView {
    pub id: Seq<char>,
    pub long_name: Seq<char>,
    pub short_name: Seq<char>,
    pub hw_model: i32,
}

impl View for UserUpdate {
    type V = UserUpdateView;

    open spec fn view(&self) -> UserUpdateView {
        UserUpdateView {
            id: self.id@,
            long_name: self.long_name@,
            short_name: self.short_name@,
            hw_model: self.hw_model,
        }
    }
}

/// A node-identity envelope.
#[derive(Debug)]
pub struct NodeUpdate {
    pub num: u32,
    pub user: Option<UserUpdate>,
    pub last_heard: u32,
    pub snr: Ieee32,
}

pub struct NodeUpdateView {
    pub num: u32,
    pub user: Option<UserUpdateView>,
    pub last_heard: u32,
    pub snr: Ieee32,
}

impl View for NodeUpdate {
    type V = NodeUpdateView;

    open spec fn view(&self) -> NodeUpdateView {
        NodeUpdateView {
            num: self.num,
            user: opt_view(self.user),
            last_heard: self.last_heard,
            snr: self.snr,
        }
    }
}

/// The envelope in which the device introduces itself.
#[derive(Debug)]
pub struct MyInfoUpdate {
    pub my_node_num: u32,
    pub reboot_count: u32,
    pub min_app_version: u32,
    pub device_id: Vec<u8>,
}

pub struct MyInfoUpdateView {
    pub my_node_num: u32,
    pub reboot_count: u32,
    pub min_app_version: u32,
    pub device_id: Seq<u8>,
}

impl View for MyInfoUpdate {
    type V = MyInfoUpdateView;

    open spec fn view(&self) -> MyInfoUpdateView {
        MyInfoUpdateView {
            my_node_num: self.my_node_num,
            reboot_count: self.reboot_count,
            min_app_version: self.min_app_version,
            device_id: self.device_id@,
        }
    }
}

/// A channel-definition envelope.
#[derive(Debug)]
pub struct ChannelUpdate {
    pub index: i32,
    /// The number of the channel's role.
    pub role: i32,
    pub settings: Option<ChannelSettings>,
}

pub struct ChannelUpdateView {
    pub index: i32,
    pub role: i32,
    pub settings: Option<ChannelSettingsView>,
}

impl View for ChannelUpdate {
    type V = ChannelUpdateView;

    open spec fn view(&self) -> ChannelUpdateView {
        ChannelUpdateView {
            index: self.index,
            role: self.role,
            settings: opt_view(self.settings),
        }
    }
}

/// The application data of a mesh packet.
#[derive(Debug)]
pub struct DataFrame {
    /// The number of the application port.
    pub portnum: i32,
    pub payload: Vec<u8>,
    /// The id of the request that this data answers; zero where it answers
    /// none.
    pub request_id: u32,
}

pub struct DataFrameView {
    pub portnum: i32,
    pub payload: Seq<u8>,
    pub request_id: u32,
}

impl View for DataFrame {
    type V = DataFrameView;

    open spec fn view(&self) -> DataFrameView {
        DataFrameView {
            portnum: self.portnum,
            payload: self.payload@,
            request_id: self.request_id,
        }
    }
}

/// What a mesh packet carries.
#[derive(Debug)]
pub enum PacketBody {
    /// Nothing.
    Absent,
    /// Data that the device could not decrypt.
    Encrypted,
    Decoded(DataFrame),
}

pub enum PacketBodyView {
    Absent,
    Encrypted,
    Decoded(DataFrameView),
}

impl View for PacketBody {
    type V = PacketBodyView;

    open spec fn view(&self) -> PacketBodyView {
        match self {
            PacketBody::Absent => PacketBodyView::Absent,
            PacketBody::Encrypted => PacketBodyView::Encrypted,
            PacketBody::Decoded(data) => PacketBodyView::Decoded(data@),
        }
    }
}

/// The addressing and reception fields of a mesh packet.
#[derive(Clone, Copy, Debug, PartialEq, Eq, Structural)]
pub struct PacketHeader {
    pub from: u32,
    pub to: u32,
    pub channel: u32,
    pub id: u32,
    pub rx_snr: Ieee32,
    pub rx_rssi: i32,
    pub want_ack: bool,
}

/// A packet that travelled over the mesh.
#[derive(Debug)]
pub struct MeshPacket {
    pub header: PacketHeader,
    pub body: PacketBody,
}

pub struct MeshPacketView {
    pub header: PacketHeader,
    pub body: PacketBodyView,
}

impl View for MeshPacket {
    type V = MeshPacketView;

    open spec fn view(&self) -> MeshPacketView {
        MeshPacketView { header: self.header, body: self.body@ }
    }
}

/// One inbound envelope, by the kind of its payload.
#[derive(Debug)]
pub enum Envelope {
    /// An envelope without payload.
    Empty,
    MyInfo(MyInfoUpdate),
    NodeInfo(NodeUpdate),
    Channel(ChannelUpdate),
    Packet(MeshPacket),
    /// A payload of a kind that the ingestion does not read.
    Other,
}

pub enum EnvelopeView {
    Empty,
    MyInfo(MyInfoUpdateView),
    NodeInfo(NodeUpdateView),
    Channel(ChannelUpdateView),
    Packet(MeshPacketView),
    Other,
}

impl View for Envelope {
    type V = EnvelopeView;

    open spec fn view(&self) -> EnvelopeView {
        match self {
            Envelope::Empty => EnvelopeView::Empty,
            Envelope::MyInfo(u) => EnvelopeView::MyInfo(u@),
            Envelope::NodeInfo(u) => EnvelopeView::NodeInfo(u@),
            Envelope::Channel(u) => EnvelopeView::Channel(u@),
            Envelope::Packet(p) => EnvelopeView::Packet(p@),
            Envelope::Other => EnvelopeView::Other,
        }
    }
}

} // verus!
