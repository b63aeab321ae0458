use meshtastic::protobufs;
use meshtastic::Message;
use rmesh_core::correlation::finish_text_with_ack;
use rmesh_core::correlation::CorrelationEntry;
use rmesh_core::correlation::finish_traceroute;
use rmesh_core::correlation::send_text_with_ack;
use rmesh_core::correlation::send_text_with_ack_as;
use rmesh_core::correlation::send_traceroute;
use rmesh_core::correlation::send_traceroute_as;
use rmesh_core::envelope::DataFrame;
use rmesh_core::envelope::Envelope;
use rmesh_core::envelope::MeshPacket;
use rmesh_core::envelope::PacketBody;
use rmesh_core::envelope::PacketHeader;
use rmesh_core::ingest::apply_envelope;
use rmesh_core::mesh::RouteHop;
use rmesh_core::outbound::Destination;
use rmesh_core::records::Ieee32;
use rmesh_core::registry::CorrelationRegistry;
use rmesh_core::registry::WaitEnd;
use rmesh_core::state::DeviceState;
use rmesh_core::wire::PortKind;

fn routing_packet(request_id: u32, routing: protobufs::Routing) -> Envelope {
    Envelope::Packet(MeshPacket {
        header: PacketHeader {
            from: 1,
            to: 2,
            channel: 0,
            id: 0,
            rx_snr: Ieee32::from_bits(0),
            rx_rssi: 0,
            want_ack: false,
        },
        body: PacketBody::Decoded(DataFrame {
            portnum: protobufs::PortNum::RoutingApp as i32,
            payload: routing.encode_to_vec(),
            request_id,
        }),
    })
}

#[test]
fn registry_keeps_one_entry_per_id() {
    let mut registry: CorrelationRegistry<&str> = CorrelationRegistry::new();
    assert!(registry.is_empty());
    assert_eq!(registry.register(5, "first"), None);
    assert_eq!(registry.register(6, "other"), None);
    assert_eq!(registry.register(5, "second"), Some("first"));
    assert_eq!(registry.len(), 2);
    assert!(registry.contains(5));
    assert_eq!(registry.remove(5), Some("second"));
    assert_eq!(registry.remove(5), None);
    assert!(!registry.contains(5));
    assert_eq!(registry.len(), 1);
    assert_eq!(registry.remove(7), None);
    assert_eq!(registry.len(), 1);
}

type Waits = CorrelationRegistry<CorrelationEntry<&'static str>>;

#[test]
fn text_with_ack_is_registered_before_it_is_sent() {
    let mut acks: Waits = CorrelationRegistry::new();
    let request = send_text_with_ack_as(&mut acks, "slot", 0x58, 1_700_000_000, "hi", 0xFFFFFFFF, 0);
    assert_eq!(request.packet_id, 0x58);
    assert_eq!(request.created_at, 1_700_000_000);
    assert!(request.displaced.is_none());
    assert!(acks.contains(0x58));
    assert_eq!(acks.len(), 1);
    assert_eq!(request.data.payload, b"hi".to_vec());
    assert_eq!(request.data.port, PortKind::TextMessage);
    assert_eq!(request.data.destination, Destination::Broadcast);
    assert_eq!(request.data.channel, 0);
    assert!(request.data.want_ack);
    assert!(!request.data.want_response);
    assert!(!request.data.echo_response);
    assert_eq!(request.data.reply_id, Some(0x58));
    assert_eq!(request.data.emoji, None);

    let to_node = send_text_with_ack_as(&mut acks, "slot", 0x59, 5, "grüß", 0x0A0B0C0D, 3);
    assert_eq!(to_node.data.destination, Destination::Node(0x0A0B0C0D));
    assert_eq!(to_node.data.channel, 3);
    assert_eq!(to_node.data.payload, "grüß".as_bytes().to_vec());
}

#[test]
fn routing_reply_ends_the_ack_wait_at_once() {
    let mut state = DeviceState::new();
    let mut acks: Waits = CorrelationRegistry::new();
    let mut routes: Waits = CorrelationRegistry::new();
    let request = send_text_with_ack(&mut acks, "slot", "hi", 0xFFFFFFFF, 0);
    let x = request.packet_id;
    assert!(acks.contains(x));
    assert!(request.created_at > 1_600_000_000);

    let reply = protobufs::Routing {
        variant: Some(protobufs::routing::Variant::ErrorReason(
            protobufs::routing::Error::None as i32,
        )),
    };
    let done = apply_envelope(routing_packet(x, reply), 1, &mut state, &mut acks, &mut routes);
    // a request id of zero answers no request, so that nothing can be pending under it
    if x != 0 {
        let entry = done.ack.expect("resolved wait");
        assert_eq!(entry.id, x);
        assert_eq!(entry.created_at, request.created_at);
        assert_eq!(entry.completion_slot, "slot");
        assert!(!acks.contains(x));
        assert!(acks.is_empty());
        // the ingestion delivers success through the handle
        assert!(finish_text_with_ack(&mut acks, x, WaitEnd::Resolved(true)));
        assert!(acks.is_empty());
    }
}

#[test]
fn ack_wait_ends_negative_unless_success_was_delivered() {
    let mut acks: Waits = CorrelationRegistry::new();
    send_text_with_ack_as(&mut acks, "a", 1, 0, "hi", 9, 0);
    send_text_with_ack_as(&mut acks, "b", 2, 0, "hi", 9, 0);
    assert_eq!(acks.len(), 2);
    assert!(!finish_text_with_ack(&mut acks, 1, WaitEnd::TimedOut));
    assert_eq!(acks.len(), 1);
    assert!(!acks.contains(1));
    // the timeout may come after the ingestion took the entry out
    assert!(!finish_text_with_ack(&mut acks, 1, WaitEnd::TimedOut));
    assert_eq!(acks.len(), 1);
    assert!(!finish_text_with_ack(&mut acks, 2, WaitEnd::Abandoned));
    assert!(acks.contains(2));
    assert!(!finish_text_with_ack(&mut acks, 2, WaitEnd::Resolved(false)));
    assert!(acks.contains(2));
    assert!(!finish_text_with_ack(&mut acks, 2, WaitEnd::Unsent));
    assert!(acks.is_empty());
    assert!(finish_text_with_ack(&mut acks, 2, WaitEnd::Resolved(true)));
}

#[test]
fn traceroute_request_is_a_reliable_packet_with_an_empty_route_request() {
    let mut routes: Waits = CorrelationRegistry::new();
    let request = send_traceroute_as(&mut routes, "slot", 0xCAFE, 77, 0x0A0B0C0D);
    assert_eq!(request.request_id, 0xCAFE);
    assert_eq!(request.created_at, 77);
    assert!(request.displaced.is_none());
    assert!(routes.contains(0xCAFE));
    let packet = request.packet;
    assert_eq!(packet.to, 0x0A0B0C0D);
    assert_eq!(packet.id, 0xCAFE);
    assert_eq!(packet.request_id, 0xCAFE);
    assert_eq!(packet.hop_limit, 7);
    assert_eq!(packet.hop_start, 7);
    assert!(!packet.want_ack);
    assert!(packet.want_response);
    assert_eq!(packet.priority, protobufs::mesh_packet::Priority::Reliable as i32);
    assert_eq!(packet.portnum, protobufs::PortNum::TracerouteApp as i32);
    assert_eq!(packet.bitfield, Some(0));
    assert_eq!(packet.payload, vec![0x0a, 0x00]);
    let decoded = protobufs::Routing::decode(packet.payload.as_slice()).expect("routing");
    assert_eq!(
        decoded.variant,
        Some(protobufs::routing::Variant::RouteRequest(Default::default()))
    );

    let again = send_traceroute_as(&mut routes, "newer", 0xCAFE, 78, 1);
    let displaced = again.displaced.expect("displaced wait");
    assert_eq!(displaced.id, 0xCAFE);
    assert_eq!(displaced.created_at, 77);
    assert_eq!(displaced.completion_slot, "slot");
    assert_eq!(routes.len(), 1);
}

#[test]
fn unanswered_traceroute_ends_with_no_hops() {
    let mut routes: Waits = CorrelationRegistry::new();
    send_traceroute_as(&mut routes, "bystander", 1, 0, 7);
    let before = routes.len();
    let request = send_traceroute(&mut routes, "slot", 42);
    let id = request.request_id;
    if id != 1 {
        assert_eq!(routes.len(), before + 1);
        let hops = finish_traceroute(&mut routes, id, WaitEnd::TimedOut);
        assert!(hops.is_empty());
        assert!(!routes.contains(id));
        assert_eq!(routes.len(), before);
    }
}

#[test]
fn traceroute_wait_returns_the_delivered_hops() {
    let mut routes: Waits = CorrelationRegistry::new();
    let hop = RouteHop {
        node_id: 5,
        node_name: "five".to_string(),
        hop_number: 0,
        snr: None,
        rssi: None,
    };
    let hops = finish_traceroute(&mut routes, 9, WaitEnd::Resolved(vec![hop]));
    assert_eq!(hops.len(), 1);
    assert_eq!(hops[0].node_name, "five");
    assert!(finish_traceroute(&mut routes, 9, WaitEnd::Abandoned).is_empty());
    send_traceroute_as(&mut routes, "slot", 9, 0, 7);
    assert!(finish_traceroute(&mut routes, 9, WaitEnd::Unsent).is_empty());
    assert!(routes.is_empty());
}

#[test]
fn fresh_ids_differ_from_call_to_call() {
    let mut acks: CorrelationRegistry<CorrelationEntry<u8>> = CorrelationRegistry::new();
    let ids: Vec<u32> = (0..8)
        .map(|_| send_text_with_ack(&mut acks, 0, "x", 1, 0).packet_id)
        .collect();
    assert!(ids.iter().any(|id| *id != ids[0]));
    assert!(ids.iter().all(|id| acks.contains(*id)));
}
