use meshtastic::protobufs;
use meshtastic::Message;
use rmesh_core::envelope::ChannelUpdate;
use rmesh_core::envelope::DataFrame;
use rmesh_core::envelope::Envelope;
use rmesh_core::envelope::MeshPacket;
use rmesh_core::envelope::MyInfoUpdate;
use rmesh_core::envelope::NodeUpdate;
use rmesh_core::envelope::PacketBody;
use rmesh_core::envelope::PacketHeader;
use rmesh_core::envelope::UserUpdate;
use rmesh_core::ingest::apply_envelope;
use rmesh_core::ingest::read_envelope;
use rmesh_core::ingest::reports_route;
use rmesh_core::ingest::resolve_ack_wait;
use rmesh_core::ingest::resolve_route_wait;
use rmesh_core::ingest::Intake;
use rmesh_core::ingest::process_from_radio_packet;
use rmesh_core::packet::apply_payload;
use rmesh_core::packet::decode_payload;
use rmesh_core::packet::AppPayload;
use rmesh_core::records::ChannelSettings;
use rmesh_core::records::Ieee32;
use rmesh_core::registry::CorrelationRegistry;
use rmesh_core::state::DeviceState;
use rmesh_core::store::StateStore;
use rmesh_core::wire::RoutingNote;
use rmesh_core::wire::TelemetryBody;

struct World {
    state: DeviceState,
    acks: CorrelationRegistry<&'static str>,
    routes: CorrelationRegistry<&'static str>,
}

fn world() -> World {
    World {
        state: DeviceState::new(),
        acks: CorrelationRegistry::new(),
        routes: CorrelationRegistry::new(),
    }
}

fn measured(value: f32) -> Ieee32 {
    Ieee32::from_bits(value.to_bits())
}

fn header(from: u32, id: u32) -> PacketHeader {
    PacketHeader {
        from,
        to: 0xFFFFFFFF,
        channel: 0,
        id,
        rx_snr: measured(6.25),
        rx_rssi: -91,
        want_ack: false,
    }
}

fn data_packet(from: u32, id: u32, port: protobufs::PortNum, payload: Vec<u8>, request_id: u32) -> Envelope {
    Envelope::Packet(MeshPacket {
        header: header(from, id),
        body: PacketBody::Decoded(DataFrame {
            portnum: port as i32,
            payload,
            request_id,
        }),
    })
}

fn node_update(num: u32, long_name: &str) -> Envelope {
    Envelope::NodeInfo(NodeUpdate {
        num,
        user: Some(UserUpdate {
            id: format!("!{:08x}", num),
            long_name: long_name.to_string(),
            short_name: "N".to_string(),
            hw_model: protobufs::HardwareModel::Tbeam as i32,
        }),
        last_heard: 1700000000,
        snr: measured(4.5),
    })
}

#[test]
fn two_node_identities_make_two_nodes() {
    let mut w = world();
    for num in [0x11111111u32, 0x22222222] {
        let done = process_from_radio_packet(
            node_update(num, "Node"),
            &mut w.state,
            &mut w.acks,
            &mut w.routes,
        );
        assert!(done.route.is_none() && done.ack.is_none());
    }
    let snapshot = w.state.clone();
    assert_eq!(snapshot.nodes.len(), 2);
    assert_eq!(snapshot.nodes[&0x11111111].id, "11111111");
    assert_eq!(snapshot.nodes[&0x22222222].id, "22222222");
    let mut ids: Vec<String> = snapshot.nodes.values().map(|n| n.id.clone()).collect();
    ids.sort();
    assert_eq!(ids, vec!["11111111".to_string(), "22222222".to_string()]);
}

#[test]
fn node_identity_is_stored_field_by_field() {
    let mut w = world();
    apply_envelope(node_update(0xAABBCCDD, "Base Camp"), 5, &mut w.state, &mut w.acks, &mut w.routes);
    let node = w.state.get_node_by_num(0xAABBCCDD).expect("node");
    assert_eq!(node.id, "aabbccdd");
    assert_eq!(node.num, 0xAABBCCDD);
    assert_eq!(node.user.id, "!aabbccdd");
    assert_eq!(node.user.long_name, "Base Camp");
    assert_eq!(node.user.short_name, "N");
    assert_eq!(node.user.hw_model.as_deref(), Some("Tbeam"));
    assert_eq!(node.last_heard, Some(1700000000));
    assert_eq!(node.snr, Some(measured(4.5)));
    assert_eq!(node.rssi, Some(0));
}

#[test]
fn node_identity_without_owner_has_empty_names() {
    let mut w = world();
    let envelope = Envelope::NodeInfo(NodeUpdate {
        num: 7,
        user: None,
        last_heard: 0,
        snr: measured(0.0),
    });
    apply_envelope(envelope, 5, &mut w.state, &mut w.acks, &mut w.routes);
    let node = w.state.get_node_by_num(7).expect("node");
    assert_eq!(node.id, "00000007");
    assert_eq!(node.user.id, "");
    assert_eq!(node.user.long_name, "");
    assert_eq!(node.user.short_name, "");
    assert_eq!(
        node.user.hw_model,
        Some(format!("{:?}", protobufs::HardwareModel::default()))
    );
    assert_eq!(node.last_heard, Some(0));
}

#[test]
fn unknown_hardware_model_reads_as_the_default() {
    let mut w = world();
    let envelope = Envelope::NodeInfo(NodeUpdate {
        num: 8,
        user: Some(UserUpdate {
            id: String::new(),
            long_name: String::new(),
            short_name: String::new(),
            hw_model: -12345,
        }),
        last_heard: 0,
        snr: measured(0.0),
    });
    apply_envelope(envelope, 5, &mut w.state, &mut w.acks, &mut w.routes);
    let node = w.state.get_node_by_num(8).expect("node");
    assert_eq!(node.user.hw_model.as_deref(), Some("Unset"));
}

#[test]
fn last_node_update_wins() {
    let mut w = world();
    apply_envelope(node_update(1, "one, first"), 1, &mut w.state, &mut w.acks, &mut w.routes);
    apply_envelope(node_update(2, "two"), 2, &mut w.state, &mut w.acks, &mut w.routes);
    apply_envelope(node_update(1, "one, second"), 3, &mut w.state, &mut w.acks, &mut w.routes);
    apply_envelope(Envelope::Other, 4, &mut w.state, &mut w.acks, &mut w.routes);
    apply_envelope(Envelope::Empty, 5, &mut w.state, &mut w.acks, &mut w.routes);
    assert_eq!(w.state.nodes.len(), 2);
    assert_eq!(w.state.nodes[&1].user.long_name, "one, second");
    assert_eq!(w.state.nodes[&2].user.long_name, "two");
}

#[test]
fn my_info_is_stored_with_hex_identifiers() {
    let mut w = world();
    let envelope = Envelope::MyInfo(MyInfoUpdate {
        my_node_num: 0x0A0B0C0D,
        reboot_count: 3,
        min_app_version: 30200,
        device_id: vec![0x00, 0x1f, 0xa0, 0xff],
    });
    apply_envelope(envelope, 5, &mut w.state, &mut w.acks, &mut w.routes);
    let info = w.state.my_node_info.as_ref().expect("my info");
    assert_eq!(info.node_num, 0x0A0B0C0D);
    assert_eq!(info.node_id, "0a0b0c0d");
    assert_eq!(info.reboot_count, 3);
    assert_eq!(info.min_app_version, 30200);
    assert_eq!(info.device_id, "001fa0ff");
}

#[test]
fn channel_definitions_are_stored_by_index() {
    let mut w = world();
    let with_settings = Envelope::Channel(ChannelUpdate {
        index: 0,
        role: protobufs::channel::Role::Primary as i32,
        settings: Some(ChannelSettings {
            channel_num: 0,
            psk: vec![1],
            name: "LongFast".to_string(),
            id: 9,
            uplink_enabled: true,
            downlink_enabled: false,
            module_settings: None,
        }),
    });
    let without_settings = Envelope::Channel(ChannelUpdate {
        index: 3,
        role: protobufs::channel::Role::Disabled as i32,
        settings: None,
    });
    let without_key = Envelope::Channel(ChannelUpdate {
        index: 0,
        role: protobufs::channel::Role::Secondary as i32,
        settings: Some(ChannelSettings {
            channel_num: 0,
            psk: vec![],
            name: "Open".to_string(),
            id: 9,
            uplink_enabled: false,
            downlink_enabled: false,
            module_settings: None,
        }),
    });
    apply_envelope(with_settings, 1, &mut w.state, &mut w.acks, &mut w.routes);
    apply_envelope(without_settings, 2, &mut w.state, &mut w.acks, &mut w.routes);
    assert_eq!(w.state.channels.len(), 2);
    assert_eq!(w.state.channels[0].index, 0);
    assert_eq!(w.state.channels[0].name, "LongFast");
    assert_eq!(w.state.channels[0].role, "Primary");
    assert!(w.state.channels[0].has_psk);
    assert!(w.state.channels[0].settings.is_some());
    assert_eq!(w.state.channels[1].index, 3);
    assert_eq!(w.state.channels[1].name, "Channel 3");
    assert_eq!(w.state.channels[1].role, "Disabled");
    assert!(!w.state.channels[1].has_psk);
    assert!(w.state.channels[1].settings.is_none());

    apply_envelope(without_key, 3, &mut w.state, &mut w.acks, &mut w.routes);
    assert_eq!(w.state.channels.len(), 2);
    assert_eq!(w.state.channels[0].name, "Open");
    assert_eq!(w.state.channels[0].role, "Secondary");
    assert!(!w.state.channels[0].has_psk);
}

#[test]
fn negative_channel_index_wraps_and_keeps_its_sign_in_the_name() {
    let mut w = world();
    let envelope = Envelope::Channel(ChannelUpdate { index: -1, role: 0, settings: None });
    apply_envelope(envelope, 1, &mut w.state, &mut w.acks, &mut w.routes);
    assert_eq!(w.state.channels[0].index, u32::MAX);
    assert_eq!(w.state.channels[0].name, "Channel -1");
}

#[test]
fn text_packets_are_appended_unacknowledged() {
    let mut w = world();
    let envelope = data_packet(
        0x11111111,
        77,
        protobufs::PortNum::TextMessageApp,
        "Hello, mesh!".as_bytes().to_vec(),
        0,
    );
    apply_envelope(envelope, 1234, &mut w.state, &mut w.acks, &mut w.routes);
    let broken = data_packet(
        0x11111111,
        78,
        protobufs::PortNum::TextMessageApp,
        vec![b'o', b'k', 0xff],
        0,
    );
    apply_envelope(broken, 1235, &mut w.state, &mut w.acks, &mut w.routes);
    assert_eq!(w.state.messages.len(), 2);
    let message = &w.state.messages[0];
    assert_eq!(message.from, "11111111");
    assert_eq!(message.from_node, 0x11111111);
    assert_eq!(message.to, "ffffffff");
    assert_eq!(message.to_node, 0xFFFFFFFF);
    assert_eq!(message.channel, 0);
    assert_eq!(message.text, "Hello, mesh!");
    assert_eq!(message.time, 1234);
    assert_eq!(message.snr, Some(measured(6.25)));
    assert_eq!(message.rssi, Some(-91));
    assert!(!message.acknowledged);
    assert_eq!(w.state.messages[1].text, "ok\u{fffd}");
    assert_eq!(w.state.messages[1].time, 1235);
}

#[test]
fn position_packets_are_stored_with_the_receipt_time() {
    let mut w = world();
    let position = protobufs::Position {
        latitude_i: Some(377749000),
        longitude_i: Some(-1224194000),
        altitude: Some(16),
        time: 1700000000,
        ..Default::default()
    };
    let envelope = data_packet(
        0xAABBCCDD,
        5,
        protobufs::PortNum::PositionApp,
        position.encode_to_vec(),
        0,
    );
    apply_envelope(envelope, 1700000123, &mut w.state, &mut w.acks, &mut w.routes);
    let stored = w.state.positions.get(&0xAABBCCDD).expect("position");
    assert_eq!(stored.node_id, "aabbccdd");
    assert_eq!(stored.node_num, 0xAABBCCDD);
    assert_eq!(stored.latitude_i, 377749000);
    assert_eq!(stored.longitude_i, -1224194000);
    assert_eq!(stored.latitude_i as f64 / 1e7, 37.7749);
    assert_eq!(stored.longitude_i as f64 / 1e7, -122.4194);
    assert_eq!(stored.altitude, Some(16));
    assert_eq!(stored.time.as_deref(), Some("2023-11-14T22:13:20+00:00"));
    assert_eq!(stored.last_updated, 1700000123);
}

#[test]
fn position_without_time_or_coordinates() {
    let mut w = world();
    let timeless = protobufs::Position {
        latitude_i: Some(1),
        longitude_i: Some(-1),
        ..Default::default()
    };
    let envelope = data_packet(1, 5, protobufs::PortNum::PositionApp, timeless.encode_to_vec(), 0);
    apply_envelope(envelope, 9, &mut w.state, &mut w.acks, &mut w.routes);
    let stored = w.state.positions.get(&1).expect("position");
    assert_eq!(stored.time, None);
    assert_eq!(stored.altitude, None);

    let half = protobufs::Position { latitude_i: Some(1), ..Default::default() };
    let envelope = data_packet(2, 5, protobufs::PortNum::PositionApp, half.encode_to_vec(), 0);
    apply_envelope(envelope, 9, &mut w.state, &mut w.acks, &mut w.routes);
    assert!(w.state.positions.get(&2).is_none());

    let garbage = data_packet(3, 5, protobufs::PortNum::PositionApp, vec![0xff, 0xff, 0xff], 0);
    apply_envelope(garbage, 9, &mut w.state, &mut w.acks, &mut w.routes);
    assert!(w.state.positions.get(&3).is_none());
    assert_eq!(w.state.positions.len(), 1);
}

#[test]
fn telemetry_packets_replace_the_sample_of_the_node() {
    let mut w = world();
    let device = protobufs::Telemetry {
        time: 100,
        variant: Some(protobufs::telemetry::Variant::DeviceMetrics(protobufs::DeviceMetrics {
            battery_level: Some(75),
            voltage: Some(3.8),
            channel_utilization: Some(10.5),
            air_util_tx: Some(5.2),
            uptime_seconds: Some(3600),
        })),
    };
    let envelope = data_packet(9, 5, protobufs::PortNum::TelemetryApp, device.encode_to_vec(), 0);
    apply_envelope(envelope, 1, &mut w.state, &mut w.acks, &mut w.routes);
    let stored = w.state.telemetry.get(&9).expect("telemetry");
    assert_eq!(stored.node_num, 9);
    assert_eq!(stored.time, 100);
    let metrics = stored.device_metrics.expect("device metrics");
    assert_eq!(metrics.battery_level, Some(75));
    assert_eq!(metrics.voltage, Some(measured(3.8)));
    assert_eq!(metrics.channel_utilization, Some(measured(10.5)));
    assert_eq!(metrics.air_util_tx, Some(measured(5.2)));
    assert_eq!(metrics.uptime_seconds, Some(3600));
    assert!(stored.environment_metrics.is_none());
    assert!(stored.air_quality_metrics.is_none());

    let environment = protobufs::Telemetry {
        time: 200,
        variant: Some(protobufs::telemetry::Variant::EnvironmentMetrics(
            protobufs::EnvironmentMetrics {
                temperature: Some(21.5),
                relative_humidity: Some(40.0),
                barometric_pressure: Some(1013.25),
                gas_resistance: Some(1.5),
                iaq: Some(50),
                distance: Some(2.5),
                lux: Some(300.0),
                white_lux: Some(301.0),
                ir_lux: Some(302.0),
                uv_lux: Some(303.0),
                wind_direction: Some(180),
                wind_speed: Some(3.5),
                weight: Some(70.5),
                ..Default::default()
            },
        )),
    };
    let envelope =
        data_packet(9, 6, protobufs::PortNum::TelemetryApp, environment.encode_to_vec(), 0);
    apply_envelope(envelope, 2, &mut w.state, &mut w.acks, &mut w.routes);
    let stored = w.state.telemetry.get(&9).expect("telemetry");
    assert_eq!(stored.time, 200);
    assert!(stored.device_metrics.is_none());
    let metrics = stored.environment_metrics.expect("environment metrics");
    assert_eq!(metrics.temperature, Some(measured(21.5)));
    assert_eq!(metrics.relative_humidity, Some(measured(40.0)));
    assert_eq!(metrics.barometric_pressure, Some(measured(1013.25)));
    assert_eq!(metrics.gas_resistance, Some(measured(1.5)));
    assert_eq!(metrics.iaq, Some(50));
    assert_eq!(metrics.distance, Some(measured(2.5)));
    assert_eq!(metrics.lux, Some(measured(300.0)));
    assert_eq!(metrics.white_lux, Some(measured(301.0)));
    assert_eq!(metrics.ir_lux, Some(measured(302.0)));
    assert_eq!(metrics.uv_lux, Some(measured(303.0)));
    assert_eq!(metrics.wind_direction, Some(180));
    assert_eq!(metrics.wind_speed, Some(measured(3.5)));
    assert_eq!(metrics.weight, Some(measured(70.5)));

    let air = protobufs::Telemetry {
        time: 300,
        variant: Some(protobufs::telemetry::Variant::AirQualityMetrics(
            protobufs::AirQualityMetrics {
                pm10_standard: Some(1),
                pm25_standard: Some(2),
                pm100_standard: Some(3),
                pm10_environmental: Some(4),
                pm25_environmental: Some(5),
                pm100_environmental: Some(6),
                particles_03um: Some(7),
                particles_05um: Some(8),
                particles_10um: Some(9),
                particles_25um: Some(10),
                particles_50um: Some(11),
                particles_100um: Some(12),
                ..Default::default()
            },
        )),
    };
    let envelope = data_packet(9, 7, protobufs::PortNum::TelemetryApp, air.encode_to_vec(), 0);
    apply_envelope(envelope, 3, &mut w.state, &mut w.acks, &mut w.routes);
    let stored = w.state.telemetry.get(&9).expect("telemetry");
    assert_eq!(stored.time, 300);
    assert!(stored.device_metrics.is_none());
    assert!(stored.environment_metrics.is_none());
    let metrics = stored.air_quality_metrics.expect("air quality metrics");
    assert_eq!(metrics.pm10_standard, Some(1));
    assert_eq!(metrics.pm25_standard, Some(2));
    assert_eq!(metrics.pm100_standard, Some(3));
    assert_eq!(metrics.pm10_environmental, Some(4));
    assert_eq!(metrics.pm25_environmental, Some(5));
    assert_eq!(metrics.pm100_environmental, Some(6));
    assert_eq!(metrics.particles_03um, Some(7));
    assert_eq!(metrics.particles_05um, Some(8));
    assert_eq!(metrics.particles_10um, Some(9));
    assert_eq!(metrics.particles_25um, Some(10));
    assert_eq!(metrics.particles_50um, Some(11));
    assert_eq!(metrics.particles_100um, Some(12));
    assert_eq!(w.state.telemetry.len(), 1);
}

#[test]
fn telemetry_of_an_unread_kind_keeps_only_its_time() {
    let mut w = world();
    let power = protobufs::Telemetry {
        time: 400,
        variant: Some(protobufs::telemetry::Variant::PowerMetrics(Default::default())),
    };
    match decode_payload(protobufs::PortNum::TelemetryApp as i32, &power.encode_to_vec()) {
        AppPayload::Telemetry(Some(frame)) => {
            assert_eq!(frame.time, 400);
            assert_eq!(frame.body, TelemetryBody::Unread);
        }
        other => panic!("unexpected payload {:?}", other),
    }
    let envelope = data_packet(9, 7, protobufs::PortNum::TelemetryApp, power.encode_to_vec(), 0);
    apply_envelope(envelope, 3, &mut w.state, &mut w.acks, &mut w.routes);
    let stored = w.state.telemetry.get(&9).expect("telemetry");
    assert_eq!(stored.time, 400);
    assert!(stored.device_metrics.is_none());
    assert!(stored.environment_metrics.is_none());
    assert!(stored.air_quality_metrics.is_none());

    let garbage = data_packet(10, 7, protobufs::PortNum::TelemetryApp, vec![0xff], 0);
    apply_envelope(garbage, 3, &mut w.state, &mut w.acks, &mut w.routes);
    assert!(w.state.telemetry.get(&10).is_none());
}

#[test]
fn packets_without_readable_data_change_nothing() {
    let mut w = world();
    w.acks.register(5, "ack");
    w.routes.register(5, "route");
    for body in [PacketBody::Absent, PacketBody::Encrypted] {
        let envelope = Envelope::Packet(MeshPacket { header: header(1, 5), body });
        let done = apply_envelope(envelope, 1, &mut w.state, &mut w.acks, &mut w.routes);
        assert!(done.ack.is_none() && done.route.is_none());
    }
    let unknown = data_packet(1, 0, protobufs::PortNum::RangeTestApp, vec![1, 2, 3], 0);
    let done = apply_envelope(unknown, 1, &mut w.state, &mut w.acks, &mut w.routes);
    assert!(done.ack.is_none() && done.route.is_none());
    assert_eq!(w.acks.len(), 1);
    assert_eq!(w.routes.len(), 1);
    assert!(w.state.messages.is_empty());
    assert!(w.state.positions.is_empty());
    assert!(w.state.telemetry.is_empty());
    assert!(w.state.nodes.is_empty());
}

#[test]
fn route_reply_resolves_the_route_wait_with_named_hops() {
    let mut w = world();
    apply_envelope(node_update(0x11111111, "Relay One"), 1, &mut w.state, &mut w.acks, &mut w.routes);
    w.routes.register(900, "route-900");
    w.routes.register(901, "route-901");
    let reply = protobufs::Routing {
        variant: Some(protobufs::routing::Variant::RouteReply(protobufs::RouteDiscovery {
            route: vec![0x11111111, 0x22222222],
            ..Default::default()
        })),
    };
    let envelope = data_packet(3, 0, protobufs::PortNum::RoutingApp, reply.encode_to_vec(), 900);
    let done = apply_envelope(envelope, 2, &mut w.state, &mut w.acks, &mut w.routes);
    let route = done.route.expect("route completion");
    assert_eq!(route.handle, "route-900");
    assert_eq!(route.hops.len(), 2);
    assert_eq!(route.hops[0].node_id, 0x11111111);
    assert_eq!(route.hops[0].node_name, "Relay One");
    assert_eq!(route.hops[0].hop_number, 0);
    assert_eq!(route.hops[0].snr, None);
    assert_eq!(route.hops[0].rssi, None);
    assert_eq!(route.hops[1].node_id, 0x22222222);
    assert_eq!(route.hops[1].node_name, "Unknown (22222222)");
    assert_eq!(route.hops[1].hop_number, 1);
    assert!(done.ack.is_none());
    assert!(!w.routes.contains(900));
    assert!(w.routes.contains(901));
    assert_eq!(w.routes.len(), 1);
}

#[test]
fn routing_error_resolves_the_route_wait_with_no_hops() {
    let mut w = world();
    w.routes.register(900, "route-900");
    let error = protobufs::Routing {
        variant: Some(protobufs::routing::Variant::ErrorReason(
            protobufs::routing::Error::NoRoute as i32,
        )),
    };
    let envelope = data_packet(3, 0, protobufs::PortNum::RoutingApp, error.encode_to_vec(), 900);
    let done = apply_envelope(envelope, 2, &mut w.state, &mut w.acks, &mut w.routes);
    let route = done.route.expect("route completion");
    assert_eq!(route.handle, "route-900");
    assert!(route.hops.is_empty());
    assert!(w.routes.is_empty());
}

#[test]
fn routing_packet_with_request_id_confirms_the_pending_ack() {
    let mut w = world();
    w.acks.register(0x58, "ack-x");
    let error = protobufs::Routing {
        variant: Some(protobufs::routing::Variant::ErrorReason(
            protobufs::routing::Error::None as i32,
        )),
    };
    let envelope = data_packet(3, 0, protobufs::PortNum::RoutingApp, error.encode_to_vec(), 0x58);
    let done = apply_envelope(envelope, 2, &mut w.state, &mut w.acks, &mut w.routes);
    assert_eq!(done.ack, Some("ack-x"));
    assert!(done.route.is_none());
    assert!(!w.acks.contains(0x58));
    assert!(w.acks.is_empty());
}

#[test]
fn duplicate_reply_has_no_effect() {
    let mut w = world();
    w.acks.register(1, "ack-1");
    w.acks.register(2, "ack-2");
    w.routes.register(1, "route-1");
    let reply = protobufs::Routing {
        variant: Some(protobufs::routing::Variant::RouteReply(protobufs::RouteDiscovery {
            route: vec![5],
            ..Default::default()
        })),
    };
    let first = data_packet(3, 0, protobufs::PortNum::RoutingApp, reply.encode_to_vec(), 1);
    let done = apply_envelope(first, 2, &mut w.state, &mut w.acks, &mut w.routes);
    assert_eq!(done.ack, Some("ack-1"));
    assert_eq!(done.route.expect("route").handle, "route-1");
    assert_eq!(w.acks.len(), 1);
    assert_eq!(w.routes.len(), 0);

    let second = data_packet(3, 0, protobufs::PortNum::RoutingApp, reply.encode_to_vec(), 1);
    let done = apply_envelope(second, 3, &mut w.state, &mut w.acks, &mut w.routes);
    assert!(done.ack.is_none());
    assert!(done.route.is_none());
    assert_eq!(w.acks.len(), 1);
    assert_eq!(w.routes.len(), 0);
    assert!(w.acks.contains(2));
}

#[test]
fn any_packet_echoing_the_request_id_is_an_implicit_ack() {
    let mut w = world();
    w.acks.register(40, "ack-40");
    w.acks.register(41, "ack-41");
    w.acks.register(42, "ack-42");
    w.acks.register(43, "ack-43");
    w.acks.register(44, "ack-44");
    w.routes.register(40, "route-40");

    // a text packet that echoes the request confirms it, and is stored too
    let echo = data_packet(7, 1000, protobufs::PortNum::TextMessageApp, b"hi".to_vec(), 40);
    let done = apply_envelope(echo, 2, &mut w.state, &mut w.acks, &mut w.routes);
    assert_eq!(done.ack, Some("ack-40"));
    assert!(done.route.is_none());
    assert_eq!(w.state.messages.len(), 1);
    assert!(!w.acks.contains(40));
    assert!(w.routes.contains(40));

    // so does a packet without an id of its own
    let anonymous = data_packet(7, 0, protobufs::PortNum::TextMessageApp, b"hi".to_vec(), 41);
    let done = apply_envelope(anonymous, 2, &mut w.state, &mut w.acks, &mut w.routes);
    assert_eq!(done.ack, Some("ack-41"));
    assert!(!w.acks.contains(41));

    // and a packet that itself asks for an acknowledgement
    let asking = Envelope::Packet(MeshPacket {
        header: PacketHeader { want_ack: true, ..header(7, 1001) },
        body: PacketBody::Decoded(DataFrame {
            portnum: protobufs::PortNum::TextMessageApp as i32,
            payload: b"hi".to_vec(),
            request_id: 42,
        }),
    });
    let done = apply_envelope(asking, 2, &mut w.state, &mut w.acks, &mut w.routes);
    assert_eq!(done.ack, Some("ack-42"));
    assert!(!w.acks.contains(42));

    // a routing packet whose payload cannot be read
    let routing = Envelope::Packet(MeshPacket {
        header: PacketHeader { want_ack: true, ..header(7, 0) },
        body: PacketBody::Decoded(DataFrame {
            portnum: protobufs::PortNum::RoutingApp as i32,
            payload: vec![0xff],
            request_id: 43,
        }),
    });
    let done = apply_envelope(routing, 2, &mut w.state, &mut w.acks, &mut w.routes);
    assert_eq!(done.ack, Some("ack-43"));

    // and data of an application that the ingestion does not read
    let other = data_packet(7, 0, protobufs::PortNum::RangeTestApp, vec![1], 44);
    let done = apply_envelope(other, 2, &mut w.state, &mut w.acks, &mut w.routes);
    assert_eq!(done.ack, Some("ack-44"));
    assert!(w.acks.is_empty());

    // the same packet again finds nothing
    let again = data_packet(7, 0, protobufs::PortNum::RangeTestApp, vec![1], 44);
    let done = apply_envelope(again, 2, &mut w.state, &mut w.acks, &mut w.routes);
    assert!(done.ack.is_none());

    // request id zero answers nothing
    w.acks.register(0, "ack-0");
    let zero = data_packet(7, 5, protobufs::PortNum::RoutingApp, vec![], 0);
    let done = apply_envelope(zero, 2, &mut w.state, &mut w.acks, &mut w.routes);
    assert!(done.ack.is_none());
    assert!(w.acks.contains(0));

    // data that could not be decrypted carries no request id
    w.acks.register(45, "ack-45");
    let encrypted = Envelope::Packet(MeshPacket { header: header(7, 45), body: PacketBody::Encrypted });
    let done = apply_envelope(encrypted, 2, &mut w.state, &mut w.acks, &mut w.routes);
    assert!(done.ack.is_none());
    assert!(w.acks.contains(45));
}

#[test]
fn route_request_and_undecodable_routing_resolve_no_route() {
    let mut w = world();
    w.routes.register(9, "route-9");
    let request = protobufs::Routing {
        variant: Some(protobufs::routing::Variant::RouteRequest(Default::default())),
    };
    match decode_payload(protobufs::PortNum::RoutingApp as i32, &request.encode_to_vec()) {
        AppPayload::Routing(RoutingNote::RouteRequest) => {}
        other => panic!("unexpected payload {:?}", other),
    }
    let envelope = data_packet(3, 0, protobufs::PortNum::RoutingApp, request.encode_to_vec(), 9);
    let done = apply_envelope(envelope, 2, &mut w.state, &mut w.acks, &mut w.routes);
    assert!(done.route.is_none());
    let garbage = data_packet(3, 0, protobufs::PortNum::RoutingApp, vec![0xff], 9);
    let done = apply_envelope(garbage, 2, &mut w.state, &mut w.acks, &mut w.routes);
    assert!(done.route.is_none());
    assert!(w.routes.contains(9));
}

#[test]
fn given_payloads_are_applied_as_they_are() {
    let mut w = world();
    w.routes.register(4, "route-4");
    let done = apply_payload(
        header(1, 0),
        4,
        AppPayload::Routing(RoutingNote::RouteReply(vec![1, 2, 3])),
        10,
        &mut w.state,
        &mut w.acks,
        &mut w.routes,
    );
    let route = done.route.expect("route");
    assert_eq!(route.hops.len(), 3);
    assert_eq!(route.hops[2].hop_number, 2);
    assert_eq!(route.hops[2].node_name, "Unknown (00000003)");
    let done = apply_payload(
        header(1, 0),
        0,
        AppPayload::Text("plain".to_string()),
        11,
        &mut w.state,
        &mut w.acks,
        &mut w.routes,
    );
    assert!(done.ack.is_none());
    assert_eq!(w.state.messages[0].text, "plain");
    assert_eq!(w.state.messages[0].time, 11);
}

#[test]
fn receipt_time_is_read_from_the_clock() {
    let mut w = world();
    let envelope = data_packet(1, 5, protobufs::PortNum::TextMessageApp, b"now".to_vec(), 0);
    process_from_radio_packet(envelope, &mut w.state, &mut w.acks, &mut w.routes);
    assert_eq!(w.state.messages.len(), 1);
    assert!(w.state.messages[0].time > 1_600_000_000);
}

#[test]
fn store_hands_out_the_state_between_envelopes() {
    let mut store = StateStore::new();
    assert!(store.snapshot().nodes.is_empty());
    store = store.apply(read_envelope(node_update(1, "one")), 10);
    let first = store.snapshot();
    store = store.apply(read_envelope(node_update(1, "one, renamed")), 11);
    store = store.apply(read_envelope(node_update(2, "two")), 12);
    let text = data_packet(1, 5, protobufs::PortNum::TextMessageApp, b"hello".to_vec(), 0);
    store = store.apply(read_envelope(text), 13);
    let second = store.snapshot();
    assert_eq!(first.nodes.len(), 1);
    assert_eq!(first.nodes[&1].user.long_name, "one");
    assert!(first.messages.is_empty());
    assert_eq!(second.nodes.len(), 2);
    assert_eq!(second.nodes[&1].user.long_name, "one, renamed");
    assert_eq!(second.messages.len(), 1);
    assert_eq!(second.messages[0].time, 13);
    assert_eq!(store.state().nodes.len(), 2);
}

#[test]
fn envelope_is_taken_in_step_by_step() {
    let mut w = world();
    let mut store = StateStore::new();
    store = store.apply(read_envelope(node_update(0x11111111, "Relay")), 1);
    w.acks.register(7, "ack-7");
    w.routes.register(7, "route-7");
    let reply = protobufs::Routing {
        variant: Some(protobufs::routing::Variant::RouteReply(protobufs::RouteDiscovery {
            route: vec![0x11111111],
            ..Default::default()
        })),
    };
    let intake = read_envelope(data_packet(
        3,
        0,
        protobufs::PortNum::RoutingApp,
        reply.encode_to_vec(),
        7,
    ));
    assert!(matches!(intake, Intake::Data(_, 7, _)));
    assert!(reports_route(&intake));
    assert!(!reports_route(&read_envelope(node_update(1, "one"))));
    let text = data_packet(3, 0, protobufs::PortNum::TextMessageApp, b"x".to_vec(), 7);
    assert!(!reports_route(&read_envelope(text)));
    let unasked = data_packet(3, 0, protobufs::PortNum::RoutingApp, reply.encode_to_vec(), 0);
    assert!(!reports_route(&read_envelope(unasked)));
    let route = resolve_route_wait(&mut w.routes, store.state(), &intake).expect("route");
    assert_eq!(route.handle, "route-7");
    assert_eq!(route.hops[0].node_name, "Relay");
    assert!(w.acks.contains(7));
    assert_eq!(resolve_ack_wait(&mut w.acks, &intake), Some("ack-7"));
    assert!(resolve_route_wait(&mut w.routes, store.state(), &intake).is_none());
    assert_eq!(resolve_ack_wait(&mut w.acks, &intake), None);
    store = store.apply(intake, 2);
    assert_eq!(store.snapshot().nodes.len(), 1);

    assert!(matches!(read_envelope(Envelope::Empty), Intake::Nothing));
    assert!(matches!(read_envelope(Envelope::Other), Intake::Nothing));
    let encrypted = Envelope::Packet(MeshPacket { header: header(1, 1), body: PacketBody::Encrypted });
    assert!(matches!(read_envelope(encrypted), Intake::Nothing));
}

#[test]
fn routing_error_for_a_pending_ack_resolves_it_with_success() {
    let mut w = world();
    w.acks.register(0x58, "ack-x");
    let error = protobufs::Routing {
        variant: Some(protobufs::routing::Variant::ErrorReason(
            protobufs::routing::Error::NoRoute as i32,
        )),
    };
    let envelope = data_packet(3, 0, protobufs::PortNum::RoutingApp, error.encode_to_vec(), 0x58);
    let done = apply_envelope(envelope, 2, &mut w.state, &mut w.acks, &mut w.routes);
    // any routing packet that carries the id of a pending ack wait ends that wait
    assert_eq!(done.ack, Some("ack-x"));
    assert!(!w.acks.contains(0x58));
    assert_eq!(w.acks.len(), 0);
}
