use speedtest_exporter::config::Config;
use speedtest_exporter::metrics::{register, register_int, Gauge, Labels};
use speedtest_exporter::speedtest::{
    LatencyResult, ParseError, PingResult, ProbeError, Server, SpeedtestResult, TestResult,
};
use speedtest_exporter::state::AppState;

fn measurement(server_id: u64, server_name: &str, bytes: i64) -> SpeedtestResult {
    let latency = LatencyResult { iqm_micros: 20_818, low_micros: 12_742, high_micros: 58_591, jitter_micros: 1_209 };
    let latency_up = LatencyResult { iqm_micros: 29_030, low_micros: 16_509, high_micros: 54_483, jitter_micros: 3_691 };
    SpeedtestResult {
        ping: PingResult { jitter_micros: 647, latency_micros: 12_280, low_micros: 12_192, high_micros: 12_837 },
        download: TestResult { bandwidth: 39_924_051, bytes, elapsed: 7_600, latency },
        upload: TestResult { bandwidth: 13_008_272, bytes: 162_571_060, elapsed: 12_200, latency: latency_up },
        server: Server {
            id: server_id,
            name: server_name.to_string(),
            location: "Some City".to_string(),
            country: "Testland".to_string(),
            host: "speedtest.example.net".to_string(),
            port: 8080,
            ip: "203.0.113.5".to_string(),
        },
        isp: "Test ISP".to_string(),
    }
}

fn value_for(gauge: &Gauge, server_id: u64) -> Option<i64> {
    let mut found = None;
    for entry in &gauge.entries {
        if entry.labels.server_id == server_id {
            found = Some(entry.value);
        }
    }
    found
}

#[test]
fn config_defaults() {
    let config = Config::default();
    assert_eq!(config.test_interval_minutes, 60);
    assert_eq!(config.http_host, "0.0.0.0");
    assert_eq!(config.http_port, 9516);
}

#[test]
fn registering_names_a_fresh_gauge() {
    let gauge = register("speedtest_ping_latency_seconds", "Speedtest ping latency in seconds");
    assert_eq!(gauge.name, "speedtest_ping_latency_seconds");
    assert_eq!(gauge.help, "Speedtest ping latency in seconds");
    assert!(gauge.micro_scaled);
    assert!(gauge.entries.is_empty());

    let gauge = register_int("speedtest_download_bytes", "Number of bytes downloaded during speedtest");
    assert!(!gauge.micro_scaled);
    assert!(gauge.entries.is_empty());
}

#[test]
fn set_replaces_the_value_of_a_series() {
    let mut gauge = register_int("speedtest_download_bytes", "bytes");
    let m = measurement(1, "Virtual Machines", 100);
    gauge.set(100, &m);
    gauge.set(250, &m);
    assert_eq!(gauge.entries.len(), 1);
    assert_eq!(value_for(&gauge, 1), Some(250));
    assert_eq!(gauge.entries[0].labels.server_name, "Virtual Machines");
    assert_eq!(gauge.entries[0].labels.isp, "Test ISP");
}

#[test]
fn value_of_reads_back_what_set_stored() {
    let mut gauge = register_int("speedtest_upload_bytes", "bytes");
    let m1 = measurement(1, "Virtual Machines", 100);
    let m2 = measurement(2, "Other Server", 200);
    gauge.set(11, &m1);
    gauge.set(22, &m2);

    let labels_one = Labels {
        server_name: "Virtual Machines".to_string(),
        server_id: 1,
        isp: "Test ISP".to_string(),
    };
    let labels_two = Labels {
        server_name: "Other Server".to_string(),
        server_id: 2,
        isp: "Test ISP".to_string(),
    };
    let labels_absent = Labels {
        server_name: "Virtual Machines".to_string(),
        server_id: 3,
        isp: "Test ISP".to_string(),
    };
    assert_eq!(gauge.value_of(&labels_one), Some(11));
    assert_eq!(gauge.value_of(&labels_two), Some(22));
    assert_eq!(gauge.value_of(&labels_absent), None);
}

#[test]
fn apply_updates_every_gauge_together() {
    let mut state = AppState::new();
    let m = measurement(1, "Virtual Machines", 306_775_755);
    state.probe_cycle(Ok(m));

    assert_eq!(value_for(&state.ping_latency_gauge, 1), Some(12_280));
    assert_eq!(value_for(&state.ping_low_gauge, 1), Some(12_192));
    assert_eq!(value_for(&state.ping_high_gauge, 1), Some(12_837));
    assert_eq!(value_for(&state.download_bytes_gauge, 1), Some(306_775_755));
    assert_eq!(value_for(&state.download_bandwidth_bytes_gauge, 1), Some(39_924_051));
    assert_eq!(value_for(&state.download_elapsed_seconds_gauge, 1), Some(7_600_000));
    assert_eq!(value_for(&state.upload_bytes_gauge, 1), Some(162_571_060));
    assert_eq!(value_for(&state.upload_bandwidth_bytes_gauge, 1), Some(13_008_272));
    assert_eq!(value_for(&state.upload_elapsed_seconds_gauge, 1), Some(12_200_000));
    assert_eq!(state.download_elapsed_seconds_gauge.entries.len(), 1);
}

#[test]
fn two_probes_keep_both_series() {
    let mut state = AppState::new();
    state.probe_cycle(Ok(measurement(1, "Virtual Machines", 100)));
    state.probe_cycle(Ok(measurement(2, "Other Server", 200)));

    // both dimension tuples survive, each with its own last-set value
    assert_eq!(state.download_bytes_gauge.entries.len(), 2);
    assert_eq!(value_for(&state.download_bytes_gauge, 1), Some(100));
    assert_eq!(value_for(&state.download_bytes_gauge, 2), Some(200));
    assert_eq!(value_for(&state.ping_latency_gauge, 1), Some(12_280));
    assert_eq!(value_for(&state.ping_latency_gauge, 2), Some(12_280));
}

#[test]
fn failed_probe_changes_nothing() {
    let mut state = AppState::new();
    state.probe_cycle(Ok(measurement(1, "Virtual Machines", 100)));

    let before: Vec<(u64, i64)> = state
        .download_bytes_gauge
        .entries
        .iter()
        .map(|e| (e.labels.server_id, e.value))
        .collect();

    state.probe_cycle(Err(ProbeError::LaunchFailure));
    state.probe_cycle(Err(ProbeError::ProcessFailure(2)));
    state.probe_cycle(Err(ProbeError::ParseFailure(ParseError::Syntax)));

    let after: Vec<(u64, i64)> = state
        .download_bytes_gauge
        .entries
        .iter()
        .map(|e| (e.labels.server_id, e.value))
        .collect();
    assert_eq!(before, after);
    assert_eq!(state.ping_latency_gauge.entries.len(), 1);
    assert_eq!(value_for(&state.ping_latency_gauge, 1), Some(12_280));
}

#[test]
fn failed_probe_on_empty_registry_adds_no_series() {
    let mut state = AppState::new();
    state.probe_cycle(Err(ProbeError::LaunchFailure));
    assert!(state.ping_latency_gauge.entries.is_empty());
    assert!(state.download_bytes_gauge.entries.is_empty());
    assert!(state.upload_elapsed_seconds_gauge.entries.is_empty());
}
