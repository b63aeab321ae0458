//! Text messages: the request that sends one, and the reading of the raw
//! inbound stream for those that arrive.

use vstd::prelude::*;
use crate::envelope::Envelope;
use crate::envelope::EnvelopeView;
use crate::envelope::PacketBody;
use crate::envelope::PacketBodyView;
use crate::outbound::destination_or_broadcast;
use crate::outbound::Destination;
use crate::platform::lossy_text;
use crate::platform::text_from_bytes;
use crate::records::Ieee32;
use crate::views::opt_view;
use crate::text::hex8;
use crate::text::node_id_string;
use crate::wire::port_kind;
use crate::wire::port_kind_of;
use crate::wire::PortKind;

verus! {

/// A text message as a watcher of the inbound stream sees it.
#[derive(Debug)]
pub struct ReceivedMessage {
    pub from: String,
    pub from_node: u32,
    pub to: String,
    pub to_node: u32,
    pub channel: u32,
    pub text: String,
    pub snr: Option<Ieee32>,
    pub rssi: Option<i32>,
}

pub struct ReceivedMessageView {
    pub from: Seq<char>,
    pub from_node: u32,
    pub to: Seq<char>,
    pub to_node: u32,
    pub channel: u32,
    pub text: Seq<char>,
    pub snr: Option<Ieee32>,
    pub rssi: Option<i32>,
}

impl View for ReceivedMessage {
    type V = ReceivedMessageView;

    open spec fn view(&self) -> ReceivedMessageView {
        ReceivedMessageView {
            from: self.from@,
            from_node: self.from_node,
            to: self.to@,
            to_node: self.to_node,
            channel: self.channel,
            text: self.text@,
            snr: self.snr,
            rssi: self.rssi,
        }
    }
}

impl Clone for ReceivedMessage {
    fn clone(&self) -> (r: Self)
        ensures
            r@ == self@,
    {
        ReceivedMessage {
            from: self.from.clone(),
            from_node: self.from_node,
            to: self.to.clone(),
            to_node: self.to_node,
            channel: self.channel,
            text: self.text.clone(),
            snr: self.snr,
            rssi: self.rssi,
        }
    }
}

/// A text message to send.
#[derive(Debug)]
pub struct TextRequest {
    pub text: String,
    pub destination: Destination,
    pub want_ack: bool,
    pub channel: u32,
}

pub struct TextRequestView {
    pub text: Seq<char>,
    pub destination: Destination,
    pub want_ack: bool,
    pub channel: u32,
}

impl View for TextRequest {
    type V = TextRequestView;

    open spec fn view(&self) -> TextRequestView {
        TextRequestView {
            text: self.text@,
            destination: self.destination,
            want_ack: self.want_ack,
            channel: self.channel,
        }
    }
}

/// Builds the request that sends a text message: to the named node, or to
/// every node where none is named.
pub fn send_text_message(text: &str, destination: Option<u32>, channel: u32, want_ack: bool) -> (r:
    TextRequest)
    ensures
        r@ == (TextRequestView {
            text: text@,
            destination: destination_or_broadcast(destination),
            want_ack,
            channel,
        }),
{
    let destination = match destination {
        Some(node_num) => Destination::Node(node_num),
        None => Destination::Broadcast,
    };
    TextRequest { text: text.to_owned(), destination, want_ack, channel }
}

/// The message that an envelope holds for a watcher who listens to the node
/// `from_node`, or to every node where none is named: that of a packet of
/// the text application with readable data.
pub open spec fn watched_message(envelope: EnvelopeView, from_node: Option<u32>) -> Option<
    ReceivedMessageView,
> {
    match envelope {
        EnvelopeView::Packet(packet) => match packet.body {
            PacketBodyView::Decoded(data) => if (from_node is None || packet.header.from
                == from_node->0) && port_kind_of(data.portnum) == PortKind::TextMessage {
                Some(
                    ReceivedMessageView {
                        from: hex8(packet.header.from),
                        from_node: packet.header.from,
                        to: hex8(packet.header.to),
                        to_node: packet.header.to,
                        channel: packet.header.channel,
                        text: lossy_text(data.payload),
                        snr: Some(packet.header.rx_snr),
                        rssi: Some(packet.header.rx_rssi),
                    },
                )
            } else {
                None
            },
            _ => None,
        },
        _ => None,
    }
}

/// Reads one envelope of the raw stream for a text message.
pub fn process_packet_for_message(envelope: &Envelope, from_node_filter: Option<u32>) -> (r: Option<
    ReceivedMessage,
>)
    ensures
        opt_view(r) == watched_message(envelope@, from_node_filter),
{
    match envelope {
        Envelope::Packet(packet) => {
            if let Some(filter) = from_node_filter {
                if packet.header.from != filter {
                    return None;
                }
            }
            match &packet.body {
                PacketBody::Decoded(data) => {
                    match port_kind(data.portnum) {
                        PortKind::TextMessage => {},
                        _ => {
                            return None;
                        },
                    }
                    Some(
                        ReceivedMessage {
                            from: node_id_string(packet.header.from),
                            from_node: packet.header.from,
                            to: node_id_string(packet.header.to),
                            to_node: packet.header.to,
                            channel: packet.header.channel,
                            text: text_from_bytes(&data.payload),
                            snr: Some(packet.header.rx_snr),
                            rssi: Some(packet.header.rx_rssi),
                        },
                    )
                },
                _ => None,
            }
        },
        _ => None,
    }
}

/// Whether a receiver that has `received` messages and was asked for `count`
/// goes on listening: without a count it listens until its time is up.
pub open spec fn spec_wants_more(received: usize, count: Option<usize>) -> bool {
    match count {
        Some(wanted) => received < wanted,
        None => received < usize::MAX,
    }
}

/// Whether a receiver goes on listening.
#[verifier::when_used_as_spec(spec_wants_more)]
pub fn wants_more(received: usize, count: Option<usize>) -> (r: bool)
    ensures
        r == spec_wants_more(received, count),
{
    match count {
        Some(wanted) => received < wanted,
        None => received < usize::MAX,
    }
}

} // verus!
