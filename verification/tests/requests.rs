use meshtastic::protobufs;
use meshtastic::protobufs::admin_message::PayloadVariant as AdminVariant;
use meshtastic::Message;
use rmesh_core::channel::add_channel;
use rmesh_core::channel::PRIMARY_ROLE;
use rmesh_core::channel::delete_channel;
use rmesh_core::channel::list_channels;
use rmesh_core::channel::set_channel;
use rmesh_core::connection::choose_transport;
use rmesh_core::connection::holds_char;
use rmesh_core::connection::starts_with;
use rmesh_core::connection::Transport;
use rmesh_core::device::factory_reset_device;
use rmesh_core::device::FACTORY_RESET_ARGUMENT;
use rmesh_core::device::reboot_device;
use rmesh_core::device::shutdown_device;
use rmesh_core::envelope::DataFrame;
use rmesh_core::envelope::Envelope;
use rmesh_core::envelope::MeshPacket;
use rmesh_core::envelope::PacketBody;
use rmesh_core::envelope::PacketHeader;
use rmesh_core::message::process_packet_for_message;
use rmesh_core::message::send_text_message;
use rmesh_core::message::wants_more;
use rmesh_core::names::gps_mode_enabled;
use rmesh_core::outbound::destination_for;
use rmesh_core::outbound::encode_blank_message;
use rmesh_core::outbound::encode_route_request;
use rmesh_core::platform::hex_encode;
use rmesh_core::wire::port_kind;
use rmesh_core::outbound::Destination;
use rmesh_core::outbound::RawPacket;
use rmesh_core::outbound::ADMIN_PORT;
use rmesh_core::outbound::BROADCAST_ADDR;
use rmesh_core::outbound::PRIORITY_DEFAULT;
use rmesh_core::outbound::PRIORITY_RELIABLE;
use rmesh_core::outbound::TRACEROUTE_PORT;
use rmesh_core::records::ChannelInfo;
use rmesh_core::records::Ieee32;
use rmesh_core::state::DeviceState;
use rmesh_core::telemetry::TelemetryType;
use rmesh_core::wire::PortKind;

fn admin(variant: AdminVariant) -> Vec<u8> {
    protobufs::AdminMessage { payload_variant: Some(variant), session_passkey: vec![] }
        .encode_to_vec()
}

fn assert_local_admin(packet: &RawPacket, payload: Vec<u8>) {
    assert_eq!(packet.payload, payload);
    assert_eq!(packet.portnum, protobufs::PortNum::AdminApp as i32);
    assert_eq!(packet.priority, protobufs::mesh_packet::Priority::Default as i32);
    assert_eq!(packet.to, 0);
    assert_eq!(packet.id, 0);
    assert_eq!(packet.hop_limit, 0);
    assert_eq!(packet.hop_start, 0);
    assert!(!packet.want_ack);
    assert!(!packet.want_response);
    assert_eq!(packet.request_id, 0);
    assert_eq!(packet.bitfield, None);
}

fn text_packet(from: u32, port: protobufs::PortNum, payload: &[u8]) -> Envelope {
    Envelope::Packet(MeshPacket {
        header: PacketHeader {
            from,
            to: 0x0000_00ff,
            channel: 2,
            id: 1,
            rx_snr: Ieee32::from_bits(7.5f32.to_bits()),
            rx_rssi: -60,
            want_ack: false,
        },
        body: PacketBody::Decoded(DataFrame {
            portnum: port as i32,
            payload: payload.to_vec(),
            request_id: 0,
        }),
    })
}

#[test]
fn protocol_numbers_are_those_of_the_codec() {
    assert_eq!(ADMIN_PORT, protobufs::PortNum::AdminApp as i32);
    assert_eq!(TRACEROUTE_PORT, protobufs::PortNum::TracerouteApp as i32);
    assert_eq!(PRIORITY_DEFAULT, protobufs::mesh_packet::Priority::Default as i32);
    assert_eq!(PRIORITY_RELIABLE, protobufs::mesh_packet::Priority::Reliable as i32);
    assert_eq!(BROADCAST_ADDR, u32::MAX);
    assert_eq!(PRIMARY_ROLE, protobufs::channel::Role::Primary as i32);
    assert_eq!(FACTORY_RESET_ARGUMENT, 1);
    assert_eq!(destination_for(u32::MAX), Destination::Broadcast);
    assert_eq!(destination_for(0), Destination::Node(0));
    assert_eq!(destination_for(17), Destination::Node(17));
}

#[test]
fn device_requests_are_admin_packets() {
    assert_local_admin(&reboot_device(Some(30)), admin(AdminVariant::RebootSeconds(30)));
    assert_local_admin(&reboot_device(None), admin(AdminVariant::RebootSeconds(5)));
    assert_local_admin(&reboot_device(Some(-1)), admin(AdminVariant::RebootSeconds(-1)));
    assert_local_admin(&shutdown_device(Some(0)), admin(AdminVariant::ShutdownSeconds(0)));
    assert_local_admin(&shutdown_device(None), admin(AdminVariant::ShutdownSeconds(5)));
    assert_local_admin(&factory_reset_device(), admin(AdminVariant::FactoryResetDevice(1)));
}

#[test]
fn channel_requests_are_admin_packets() {
    let channel = |index: i32, name: &str, psk: &[u8]| {
        admin(AdminVariant::SetChannel(protobufs::Channel {
            index,
            settings: Some(protobufs::ChannelSettings {
                name: name.to_string(),
                psk: psk.to_vec(),
                ..Default::default()
            }),
            role: protobufs::channel::Role::Primary as i32,
        }))
    };
    assert_local_admin(&add_channel("hikers", Some("secret")), channel(0, "hikers", b"secret"));
    assert_local_admin(&add_channel("open", None), channel(0, "open", b""));
    assert_local_admin(&set_channel(3, Some("camp"), Some("k")), channel(3, "camp", b"k"));
    assert_local_admin(&set_channel(4, None, None), channel(4, "", b""));
    assert_local_admin(&set_channel(u32::MAX, None, None), channel(-1, "", b""));
    assert_local_admin(&delete_channel(2), admin(AdminVariant::RemoveByNodenum(2)));
}

#[test]
fn channels_are_listed_without_their_settings() {
    let mut state = DeviceState::new();
    assert!(list_channels(&state).is_empty());
    state.update_channel(ChannelInfo {
        index: 0,
        name: "LongFast".to_string(),
        role: "Primary".to_string(),
        has_psk: true,
        settings: None,
    });
    state.update_channel(ChannelInfo {
        index: 1,
        name: "side".to_string(),
        role: "Secondary".to_string(),
        has_psk: false,
        settings: None,
    });
    let listed = list_channels(&state);
    assert_eq!(listed.len(), 2);
    assert_eq!(listed[0].index, 0);
    assert_eq!(listed[0].name, "LongFast");
    assert_eq!(listed[0].role, "Primary");
    assert!(listed[0].has_psk);
    assert_eq!(listed[1].index, 1);
    assert_eq!(listed[1].name, "side");
    assert_eq!(listed[1].role, "Secondary");
    assert!(!listed[1].has_psk);
}

#[test]
fn transport_follows_the_settings() {
    let choose = |port: Option<&str>, ble: Option<&str>| {
        choose_transport(&port.map(|p| p.to_string()), &ble.map(|b| b.to_string()))
    };
    assert!(matches!(choose(None, None), Transport::AutoDetect));
    assert!(matches!(choose(Some("/dev/ttyUSB0"), None), Transport::Serial(p) if p == "/dev/ttyUSB0"));
    assert!(matches!(choose(Some("COM3"), None), Transport::Serial(p) if p == "COM3"));
    assert!(matches!(choose(Some("meshtastic.local:4403"), None), Transport::Tcp(p) if p == "meshtastic.local:4403"));
    assert!(matches!(choose(Some("192.168.1.5"), None), Transport::Tcp(p) if p == "192.168.1.5"));
    assert!(matches!(choose(Some("10.0.0.7"), None), Transport::Tcp(p) if p == "10.0.0.7"));
    assert!(matches!(choose(Some("100.0.0.7"), None), Transport::Serial(_)));
    assert!(matches!(choose(Some("192"), None), Transport::Serial(_)));
    assert!(matches!(choose(Some(""), None), Transport::Serial(_)));
    assert!(matches!(choose(Some("10.0.0.7"), Some("AA:BB")), Transport::Bluetooth(a) if a == "AA:BB"));
    assert!(matches!(choose(None, Some("radio")), Transport::Bluetooth(a) if a == "radio"));
    assert!(holds_char("a:b", ':'));
    assert!(!holds_char("ab", ':'));
    assert!(starts_with("10.", "10."));
    assert!(!starts_with("10", "10."));
    assert!(starts_with("anything", ""));
}

#[test]
fn text_requests_name_their_destination() {
    let request = send_text_message("hello", Some(5), 2, true);
    assert_eq!(request.text, "hello");
    assert_eq!(request.destination, Destination::Node(5));
    assert_eq!(request.channel, 2);
    assert!(request.want_ack);
    let request = send_text_message("all", None, 0, false);
    assert_eq!(request.destination, Destination::Broadcast);
    assert!(!request.want_ack);
    let request = send_text_message("edge", Some(u32::MAX), 0, false);
    assert_eq!(request.destination, Destination::Node(u32::MAX));
}

#[test]
fn raw_stream_is_read_for_messages() {
    let envelope = text_packet(0x11, protobufs::PortNum::TextMessageApp, "Hello, mesh!".as_bytes());
    let message = process_packet_for_message(&envelope, None).expect("message");
    assert_eq!(message.from, "00000011");
    assert_eq!(message.from_node, 0x11);
    assert_eq!(message.to, "000000ff");
    assert_eq!(message.to_node, 0xff);
    assert_eq!(message.channel, 2);
    assert_eq!(message.text, "Hello, mesh!");
    assert_eq!(message.snr, Some(Ieee32::from_bits(7.5f32.to_bits())));
    assert_eq!(message.rssi, Some(-60));
    assert!(process_packet_for_message(&envelope, Some(0x11)).is_some());
    assert!(process_packet_for_message(&envelope, Some(0x12)).is_none());
    let other = text_packet(0x11, protobufs::PortNum::PositionApp, b"x");
    assert!(process_packet_for_message(&other, None).is_none());
    let broken = text_packet(0x11, protobufs::PortNum::TextMessageApp, &[0xe2, 0x82]);
    assert_eq!(process_packet_for_message(&broken, None).expect("message").text, "\u{fffd}");
    assert!(process_packet_for_message(&Envelope::Other, None).is_none());
    let encrypted = Envelope::Packet(MeshPacket {
        header: PacketHeader {
            from: 1,
            to: 2,
            channel: 0,
            id: 0,
            rx_snr: Ieee32::from_bits(0),
            rx_rssi: 0,
            want_ack: false,
        },
        body: PacketBody::Encrypted,
    });
    assert!(process_packet_for_message(&encrypted, None).is_none());
}

#[test]
fn receiver_listens_until_it_has_what_was_asked_for() {
    assert!(wants_more(0, Some(1)));
    assert!(!wants_more(1, Some(1)));
    assert!(!wants_more(0, Some(0)));
    assert!(wants_more(1_000_000, None));
    assert!(!wants_more(usize::MAX, None));
}

#[test]
fn telemetry_types_are_distinct() {
    assert_ne!(TelemetryType::Battery, TelemetryType::Environment);
    assert_ne!(TelemetryType::Environment, TelemetryType::Device);
    assert_eq!(PortKind::Telemetry, PortKind::Telemetry);
}

#[test]
fn port_numbers_are_read_as_the_codec_reads_them() {
    let read = |number: i32| protobufs::Data { portnum: number, ..Default::default() }.portnum();
    for number in -3..300 {
        let expected = match read(number) {
            protobufs::PortNum::TextMessageApp => PortKind::TextMessage,
            protobufs::PortNum::PositionApp => PortKind::Position,
            protobufs::PortNum::RoutingApp => PortKind::Routing,
            protobufs::PortNum::AdminApp => PortKind::Admin,
            protobufs::PortNum::TelemetryApp => PortKind::Telemetry,
            _ => PortKind::Other,
        };
        assert_eq!(port_kind(number), expected, "port {}", number);
    }
    assert_eq!(port_kind(i32::MAX), PortKind::Other);
    assert_eq!(port_kind(i32::MIN), PortKind::Other);
    assert_eq!(port_kind(protobufs::PortNum::TracerouteApp as i32), PortKind::Other);
}

#[test]
fn gps_modes_count_as_enabled_as_the_codec_reads_them() {
    for number in -3..10 {
        let config = protobufs::config::PositionConfig { gps_mode: number, ..Default::default() };
        let expected =
            config.gps_mode() != protobufs::config::position_config::GpsMode::Disabled;
        assert_eq!(gps_mode_enabled(number), expected, "mode {}", number);
    }
}

#[test]
fn bytes_are_written_in_hex_as_the_hex_crate_writes_them() {
    assert_eq!(hex_encode(&vec![]), "");
    assert_eq!(hex_encode(&vec![0x00, 0x1f, 0xa0, 0xff]), "001fa0ff");
    assert_eq!(hex_encode(&vec![1, 2, 3, 15, 16]), "0102030f10");
    let all: Vec<u8> = (0..=255).collect();
    assert_eq!(hex_encode(&all), hex::encode(&all));
    assert_eq!(hex_encode(&b"Hello world!".to_vec()), hex::encode("Hello world!"));
}

#[test]
fn fixed_payloads_are_what_the_codec_encodes() {
    let request = protobufs::Routing {
        variant: Some(protobufs::routing::Variant::RouteRequest(Default::default())),
    };
    assert_eq!(encode_route_request(), request.encode_to_vec());
    assert_eq!(encode_blank_message(), protobufs::Position::default().encode_to_vec());
    assert_eq!(encode_blank_message(), protobufs::Telemetry::default().encode_to_vec());
}
