use rmesh_core::info::destination_label;
use rmesh_core::info::format_version;
use rmesh_core::info::heard_ago;
use rmesh_core::info::radio_info;
use rmesh_core::info::telemetry_label;
use rmesh_core::records::ChannelInfo;
use rmesh_core::records::DeviceMetrics;
use rmesh_core::records::EnvironmentMetrics;
use rmesh_core::records::MyNodeInfo;
use rmesh_core::records::NodeInfo;
use rmesh_core::records::TelemetryData;
use rmesh_core::records::User;
use rmesh_core::report::category_stats;
use rmesh_core::report::generate_recommendations;
use rmesh_core::report::tally;
use rmesh_core::report::CategoryStats;
use rmesh_core::report::DeviceInfo;
use rmesh_core::report::TestCategory;
use rmesh_core::report::TestReport;
use rmesh_core::report::TestResult;
use rmesh_core::settings::LoraConfig;
use rmesh_core::settings::PositionConfig;
use rmesh_core::records::Ieee32;
use rmesh_core::state::DeviceState;

fn outcome(name: &str, category: &str, passed: bool, duration_ms: u64) -> TestResult {
    TestResult {
        name: name.to_string(),
        category: category.to_string(),
        passed,
        duration_ms,
        error: if passed { None } else { Some("failed".to_string()) },
        timestamp: 1_700_000_000,
    }
}

#[test]
fn report_counts_each_result() {
    let mut report = TestReport::begun("run-1".to_string(), 1_700_000_000, "/dev/ttyUSB0".to_string());
    assert_eq!(report.test_id, "run-1");
    assert_eq!(report.timestamp, 1_700_000_000);
    assert_eq!(report.device_info.port, "/dev/ttyUSB0");
    assert_eq!(report.device_info.firmware_version, None);
    assert_eq!(report.device_info.node_num, None);
    assert_eq!((report.tests_run, report.tests_passed, report.tests_failed), (0, 0, 0));
    report.add_test_result(outcome("a", "Connection", true, 10));
    report.add_test_result(outcome("b", "Connection", false, 20));
    report.add_test_result(outcome("c", "Mesh", false, 5));
    report.add_test_result(outcome("d", "Mesh", false, 7));
    report.add_test_result(outcome("e", "Device", true, 1));
    assert_eq!(report.tests_run, 5);
    assert_eq!(report.tests_passed, 2);
    assert_eq!(report.tests_failed, 3);
    assert_eq!(report.tests_skipped, 0);
    assert_eq!(report.test_results.len(), 5);
    assert_eq!(report.test_results[4].name, "e");

    report.calculate_stats(true);
    let stats: Vec<(String, usize, usize, usize, usize, u64)> = report
        .category_stats
        .iter()
        .map(|s| (s.category.clone(), s.total, s.passed, s.failed, s.skipped, s.duration_ms))
        .collect();
    assert_eq!(
        stats,
        vec![
            ("Connection".to_string(), 2, 1, 1, 0, 30),
            ("Mesh".to_string(), 2, 0, 2, 0, 12),
            ("Device".to_string(), 1, 1, 0, 0, 1),
        ]
    );
    assert_eq!(
        report.recommendations,
        vec![
            "High packet error rate detected. Check USB cable and connections.".to_string(),
            "Majority of tests failed. Device may need firmware update or reset.".to_string(),
            "Mesh tests are failing. Focus on debugging this area.".to_string(),
        ]
    );
    report.calculate_stats(false);
    assert_eq!(report.recommendations.len(), 2);
    assert_eq!(report.category_stats.len(), 3);
}

#[test]
fn new_report_has_an_identifier_of_its_own() {
    let first = TestReport::new("COM1".to_string());
    let second = TestReport::new("COM1".to_string());
    assert_eq!(first.test_id.len(), 36);
    assert_ne!(first.test_id, second.test_id);
    assert!(first.timestamp > 1_600_000_000);
    assert_eq!(first.tests_run, 0);
    assert!(first.test_results.is_empty());
    assert!(first.recommendations.is_empty());
    let info = DeviceInfo::new("COM2".to_string());
    assert_eq!(info.port, "COM2");
    assert_eq!(info.has_gps, None);
}

#[test]
fn durations_and_counts_are_capped() {
    let mut stats: Vec<CategoryStats> = vec![CategoryStats {
        category: "Mesh".to_string(),
        total: usize::MAX,
        passed: usize::MAX - 1,
        failed: 0,
        skipped: 3,
        duration_ms: u64::MAX - 5,
    }];
    tally(&mut stats, &outcome("x", "Mesh", true, 10));
    assert_eq!(stats.len(), 1);
    assert_eq!(stats[0].total, usize::MAX);
    assert_eq!(stats[0].passed, usize::MAX);
    assert_eq!(stats[0].failed, 0);
    assert_eq!(stats[0].skipped, 3);
    assert_eq!(stats[0].duration_ms, u64::MAX);
    assert!(category_stats(&vec![]).is_empty());
    assert!(generate_recommendations(false, 0, 0, &stats).is_empty());
    assert_eq!(generate_recommendations(false, 1, 1, &vec![]).len(), 0);
}

#[test]
fn categories_are_read_by_name() {
    assert_eq!(TestCategory::from_str("connection"), Some(TestCategory::Connection));
    assert_eq!(TestCategory::from_str("Device"), Some(TestCategory::Device));
    assert_eq!(TestCategory::from_str("MESSAGE"), Some(TestCategory::Messaging));
    assert_eq!(TestCategory::from_str("messaging"), Some(TestCategory::Messaging));
    assert_eq!(TestCategory::from_str("config"), Some(TestCategory::Configuration));
    assert_eq!(TestCategory::from_str("configuration"), Some(TestCategory::Configuration));
    assert_eq!(TestCategory::from_str("channel"), Some(TestCategory::Channels));
    assert_eq!(TestCategory::from_str("channels"), Some(TestCategory::Channels));
    assert_eq!(TestCategory::from_str("gps"), Some(TestCategory::Position));
    assert_eq!(TestCategory::from_str("position"), Some(TestCategory::Position));
    assert_eq!(TestCategory::from_str("network"), Some(TestCategory::Mesh));
    assert_eq!(TestCategory::from_str("mesh"), Some(TestCategory::Mesh));
    assert_eq!(TestCategory::from_str("Telemetry"), Some(TestCategory::Telemetry));
    assert_eq!(TestCategory::from_str("radio"), None);
    assert_eq!(TestCategory::from_lower("Device"), None);
    assert_eq!(TestCategory::Configuration.to_string(), "Configuration");
    assert_eq!(TestCategory::Mesh.to_string(), "Mesh");
}

#[test]
fn versions_and_ages_are_written_for_reading() {
    assert_eq!(format_version(20300), "2.3.0");
    assert_eq!(format_version(30215), "3.2.15");
    assert_eq!(format_version(0), "0.0.0");
    assert_eq!(format_version(u32::MAX), "429496.72.95");
    assert_eq!(heard_ago(100, 100), "0s ago");
    assert_eq!(heard_ago(100, 200), "0s ago");
    assert_eq!(heard_ago(159, 100), "59s ago");
    assert_eq!(heard_ago(160, 100), "1m ago");
    assert_eq!(heard_ago(3699, 100), "59m ago");
    assert_eq!(heard_ago(3700, 100), "1h ago");
    assert_eq!(heard_ago(100 + 7 * 3600 + 5, 100), "7h ago");
    assert_eq!(destination_label(None), "Broadcast");
    assert_eq!(destination_label(Some(0xAB)), "000000ab");
}

#[test]
fn telemetry_kinds_are_named() {
    let device = DeviceMetrics {
        battery_level: None,
        voltage: None,
        channel_utilization: None,
        air_util_tx: None,
        uptime_seconds: None,
    };
    let environment = EnvironmentMetrics {
        temperature: None,
        relative_humidity: None,
        barometric_pressure: None,
        gas_resistance: None,
        iaq: None,
        distance: None,
        lux: None,
        white_lux: None,
        ir_lux: None,
        uv_lux: None,
        wind_direction: None,
        wind_speed: None,
        weight: None,
    };
    let sample = |d: bool, e: bool| TelemetryData {
        node_num: 1,
        time: 0,
        device_metrics: if d { Some(device) } else { None },
        environment_metrics: if e { Some(environment) } else { None },
        air_quality_metrics: None,
    };
    assert_eq!(telemetry_label(&sample(false, false)), "None");
    assert_eq!(telemetry_label(&sample(true, false)), "Device");
    assert_eq!(telemetry_label(&sample(false, true)), "Environment");
    assert_eq!(telemetry_label(&sample(true, true)), "Device, Environment");
}

#[test]
fn radio_info_is_gathered_from_the_state() {
    let mut state = DeviceState::new();
    let unknown = radio_info(&state);
    assert_eq!(unknown.firmware_version, "Unknown");
    assert_eq!(unknown.hardware_model, "Unknown");
    assert_eq!(unknown.region, "Unknown");
    assert_eq!(unknown.node_id, "Unknown");
    assert_eq!(unknown.node_num, 0);
    assert!(!unknown.has_gps);
    assert_eq!(unknown.num_channels, 0);

    state.set_my_node_info(MyNodeInfo {
        node_num: 9,
        node_id: "00000009".to_string(),
        reboot_count: 0,
        min_app_version: 20501,
        device_id: String::new(),
    });
    assert_eq!(radio_info(&state).hardware_model, "Unknown");
    state.update_node(
        9,
        NodeInfo {
            id: "00000009".to_string(),
            num: 9,
            user: User {
                id: String::new(),
                long_name: String::new(),
                short_name: String::new(),
                hw_model: Some("Tbeam".to_string()),
            },
            last_heard: None,
            snr: None,
            rssi: None,
        },
    );
    state.lora_config = Some(LoraConfig {
        use_preset: true,
        modem_preset: "LongFast".to_string(),
        bandwidth: 0,
        spread_factor: 0,
        coding_rate: 0,
        frequency_offset: Ieee32::from_bits(0),
        region: "Eu868".to_string(),
        hop_limit: 3,
        tx_enabled: true,
        tx_power: 0,
        channel_num: 0,
        ignore_mqtt: false,
    });
    state.position_config = Some(PositionConfig {
        position_broadcast_secs: 0,
        position_broadcast_smart_enabled: false,
        fixed_position: false,
        gps_enabled: true,
        gps_mode: "Enabled".to_string(),
    });
    state.update_channel(ChannelInfo {
        index: 0,
        name: "LongFast".to_string(),
        role: "Primary".to_string(),
        has_psk: true,
        settings: None,
    });
    let info = radio_info(&state);
    assert_eq!(info.firmware_version, "2.5.1");
    assert_eq!(info.hardware_model, "Tbeam");
    assert_eq!(info.region, "Eu868");
    assert_eq!(info.node_id, "00000009");
    assert_eq!(info.node_num, 9);
    assert!(info.has_gps);
    assert_eq!(info.num_channels, 1);
}
