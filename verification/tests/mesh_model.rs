use rmesh_core::mesh::get_neighbors;
use rmesh_core::mesh::get_network_stats;
use rmesh_core::mesh::get_nodes;
use rmesh_core::mesh::get_topology;
use rmesh_core::mesh::neighbors_among;
use rmesh_core::mesh::network_stats_of;
use rmesh_core::mesh::MeshHealth;
use rmesh_core::mesh::MeshNode;
use rmesh_core::mesh::NetworkStats;
use rmesh_core::mesh::RouteHop;
use rmesh_core::records::Ieee32;
use rmesh_core::records::MyNodeInfo;
use rmesh_core::records::NodeInfo;
use rmesh_core::records::User;
use rmesh_core::state::DeviceState;

fn ieee(value: f32) -> Ieee32 {
    Ieee32::from_bits(value.to_bits())
}

fn snr(value: f32) -> Option<Ieee32> {
    Some(ieee(value))
}

fn node(num: u32, name: &str, snr: Option<f32>, rssi: Option<i32>, last_heard: Option<u64>) -> NodeInfo {
    NodeInfo {
        id: format!("{:08x}", num),
        num,
        user: User {
            id: format!("!{:08x}", num),
            long_name: name.to_string(),
            short_name: String::new(),
            hw_model: None,
        },
        last_heard,
        snr: snr.map(ieee),
        rssi,
    }
}

fn sample_state() -> DeviceState {
    let mut state = DeviceState::new();
    state.update_node(1, node(1, "near", Some(6.0), Some(-70), Some(9_000)));
    state.update_node(2, node(2, "old", Some(1.0), Some(-81), Some(1_000)));
    state.update_node(3, node(3, "heard of", None, None, Some(9_500)));
    state.update_node(4, node(4, "silent", None, Some(-100), None));
    state.update_node(5, node(5, "future", Some(2.0), None, Some(20_000)));
    state
}

#[test]
fn test_network_stats_creation() {
    let stats = NetworkStats {
        total_nodes: 10,
        active_nodes: 8,
        neighbors: 3,
        average_snr: snr(5.5),
        average_rssi: Some(-75),
        mesh_health: MeshHealth::Good,
    };

    assert_eq!(stats.total_nodes, 10);
    assert_eq!(stats.active_nodes, 8);
    assert_eq!(stats.mesh_health, MeshHealth::Good);
}

#[test]
fn test_mesh_health_enum() {
    // Test from_metrics logic
    assert_eq!(MeshHealth::from_metrics(0, None), MeshHealth::Isolated);
    assert_eq!(MeshHealth::from_metrics(1, None), MeshHealth::Weak);
    assert_eq!(MeshHealth::from_metrics(2, None), MeshHealth::Fair);
    assert_eq!(MeshHealth::from_metrics(2, snr(-1.0)), MeshHealth::Fair);
    assert_eq!(MeshHealth::from_metrics(2, snr(0.5)), MeshHealth::Good);
    assert_eq!(MeshHealth::from_metrics(3, snr(2.0)), MeshHealth::Good);
    assert_eq!(
        MeshHealth::from_metrics(5, snr(6.0)),
        MeshHealth::Excellent
    );

    // Test the names
    assert_eq!(MeshHealth::Isolated.to_string(), "Isolated");
    assert_eq!(MeshHealth::Weak.to_string(), "Weak");
    assert_eq!(MeshHealth::Fair.to_string(), "Fair");
    assert_eq!(MeshHealth::Good.to_string(), "Good");
    assert_eq!(MeshHealth::Excellent.to_string(), "Excellent");
}

#[test]
fn test_mesh_node_creation() {
    let node = MeshNode {
        id: "test123".to_string(),
        num: 0x12345678,
        name: "Test Node".to_string(),
        snr: snr(5.5),
        rssi: Some(-70),
        last_heard: Some(1234567890),
        hops_away: Some(2),
    };

    assert_eq!(node.id, "test123");
    assert_eq!(node.hops_away, Some(2));
    assert_eq!(node.name, "Test Node");
}

#[test]
fn test_route_hop_creation() {
    let hop = RouteHop {
        node_id: 0x12345678,
        node_name: "Hop Node".to_string(),
        hop_number: 1,
        snr: snr(5.5),
        rssi: Some(-70),
    };

    assert_eq!(hop.node_id, 0x12345678);
    assert_eq!(hop.snr, snr(5.5));
}

#[test]
fn mesh_health_follows_the_sign_and_size_of_the_average() {
    assert_eq!(MeshHealth::from_metrics(2, snr(5.0)), MeshHealth::Good);
    assert_eq!(MeshHealth::from_metrics(2, snr(5.000001)), MeshHealth::Excellent);
    assert_eq!(MeshHealth::from_metrics(2, snr(0.0)), MeshHealth::Fair);
    assert_eq!(MeshHealth::from_metrics(2, snr(-0.0)), MeshHealth::Fair);
    assert_eq!(MeshHealth::from_metrics(2, snr(f32::MIN_POSITIVE)), MeshHealth::Good);
    assert_eq!(MeshHealth::from_metrics(2, snr(f32::INFINITY)), MeshHealth::Excellent);
    assert_eq!(MeshHealth::from_metrics(2, snr(f32::NEG_INFINITY)), MeshHealth::Fair);
    assert_eq!(MeshHealth::from_metrics(2, snr(f32::NAN)), MeshHealth::Fair);
    assert_eq!(MeshHealth::from_metrics(2, snr(-6.0)), MeshHealth::Fair);
    assert_eq!(MeshHealth::from_metrics(0, snr(6.0)), MeshHealth::Isolated);
    assert_eq!(MeshHealth::from_metrics(1, snr(6.0)), MeshHealth::Weak);
    assert!(ieee(5.5).exceeds_five());
    assert!(!ieee(5.0).exceeds_five());
    assert!(ieee(0.25).is_positive());
    assert!(!ieee(-0.25).is_positive());
    assert_eq!(Ieee32::FIVE_BITS, 5.0f32.to_bits());
    assert_eq!(Ieee32::INFINITY_BITS, f32::INFINITY.to_bits());
}

#[test]
fn all_nodes_are_listed_once() {
    let state = sample_state();
    let mut names: Vec<String> =
        get_nodes(&state).into_iter().map(|n| n.user.long_name).collect();
    names.sort();
    assert_eq!(names, vec!["future", "heard of", "near", "old", "silent"]);
    assert!(get_nodes(&DeviceState::new()).is_empty());
}

#[test]
fn neighbors_have_a_signal_and_were_heard_within_the_hour() {
    let state = sample_state();
    let mut names: Vec<String> =
        get_neighbors(&state, 10_000).into_iter().map(|n| n.user.long_name).collect();
    names.sort();
    assert_eq!(names, vec!["future", "near"]);

    let listing = vec![
        node(1, "edge", Some(1.0), None, Some(6_401)),
        node(2, "just out", Some(1.0), None, Some(6_400)),
        node(3, "rssi only", None, Some(-5), Some(10_000)),
        node(4, "no signal", None, None, Some(10_000)),
    ];
    let names: Vec<String> =
        neighbors_among(&listing, 10_000).into_iter().map(|n| n.user.long_name).collect();
    assert_eq!(names, vec!["edge", "rssi only"]);
}

#[test]
fn network_stats_count_and_average() {
    let state = sample_state();
    let stats = get_network_stats(&state, 10_000, snr(3.0));
    assert_eq!(stats.total_nodes, 5);
    assert_eq!(stats.active_nodes, 3);
    assert_eq!(stats.neighbors, 4);
    assert_eq!(stats.average_snr, snr(3.0));
    assert_eq!(stats.average_rssi, Some((-70 - 81 - 100) / 3));
    assert_eq!(stats.average_rssi, Some(-83));
    assert_eq!(stats.mesh_health, MeshHealth::Good);

    let empty = get_network_stats(&DeviceState::new(), 10_000, None);
    assert_eq!(empty.total_nodes, 0);
    assert_eq!(empty.active_nodes, 0);
    assert_eq!(empty.neighbors, 0);
    assert_eq!(empty.average_rssi, None);
    assert_eq!(empty.mesh_health, MeshHealth::Isolated);

    let one = vec![node(1, "a", None, Some(i32::MIN), None), node(2, "b", None, Some(-1), None)];
    let stats = network_stats_of(&one, 0, None);
    assert_eq!(stats.average_rssi, Some(((i32::MIN as i64 - 1) / 2) as i32));
    assert_eq!(stats.neighbors, 2);
    assert_eq!(stats.mesh_health, MeshHealth::Fair);
    let high = vec![node(1, "a", None, Some(i32::MAX), None), node(2, "b", None, Some(i32::MAX), None)];
    assert_eq!(network_stats_of(&high, 0, None).average_rssi, Some(i32::MAX));
    let mixed = vec![node(1, "a", None, Some(-7), None), node(2, "b", None, Some(0), None)];
    assert_eq!(network_stats_of(&mixed, 0, snr(9.0)).average_rssi, Some(-3));
    assert_eq!(network_stats_of(&mixed, 0, snr(9.0)).mesh_health, MeshHealth::Excellent);
}

#[test]
fn topology_links_this_node_to_every_node_with_a_signal() {
    let mut state = sample_state();
    let unknown = get_topology(&state);
    assert_eq!(unknown.my_node_id, "unknown");
    state.set_my_node_info(MyNodeInfo {
        node_num: 0xAB,
        node_id: "000000ab".to_string(),
        reboot_count: 0,
        min_app_version: 0,
        device_id: String::new(),
    });
    let topology = get_topology(&state);
    assert_eq!(topology.my_node_id, "000000ab");
    assert_eq!(topology.total_nodes, 5);
    assert_eq!(topology.nodes.len(), 5);
    let mut nodes: Vec<(u32, String, String)> = topology
        .nodes
        .iter()
        .map(|n| (n.num, n.id.clone(), n.name.clone()))
        .collect();
    nodes.sort();
    assert_eq!(nodes[0], (1, "00000001".to_string(), "near".to_string()));
    assert_eq!(nodes[4], (5, "00000005".to_string(), "future".to_string()));
    assert!(topology.nodes.iter().all(|n| n.hops_away.is_none()));
    let near = topology.nodes.iter().find(|n| n.num == 1).expect("node 1");
    assert_eq!(near.snr, snr(6.0));
    assert_eq!(near.rssi, Some(-70));
    assert_eq!(near.last_heard, Some(9_000));
    let mut links: Vec<String> = topology.edges.iter().map(|e| e.to.clone()).collect();
    links.sort();
    assert_eq!(links, vec!["00000001", "00000002", "00000004", "00000005"]);
    assert!(topology.edges.iter().all(|e| e.from == "000000ab"));
    let to_silent = topology.edges.iter().find(|e| e.to == "00000004").expect("edge");
    assert_eq!(to_silent.snr, None);
    assert_eq!(to_silent.rssi, Some(-100));
    // the links come in the order of the nodes
    let with_signal: Vec<String> = topology
        .nodes
        .iter()
        .filter(|n| n.snr.is_some() || n.rssi.is_some())
        .map(|n| n.id.clone())
        .collect();
    let in_order: Vec<String> = topology.edges.iter().map(|e| e.to.clone()).collect();
    assert_eq!(with_signal, in_order);
}
