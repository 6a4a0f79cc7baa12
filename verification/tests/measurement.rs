use speedtest_exporter::numbers::parse_millis_to_micros;
use speedtest_exporter::speedtest::{
    LatencyResult, ParseError, SpeedtestResult, TestResult, MAX_ELAPSED_MILLIS,
};

fn fixture_json() -> String {
    let mut s = String::new();
    s.push_str("{\"type\":\"result\",");
    s.push_str("\"ping\":{\"jitter\":0.647,\"latency\":12.28,\"low\":12.192,\"high\":12.837},");
    s.push_str("\"download\":{\"bandwidth\":39924051,\"bytes\":306775755,\"elapsed\":7600,");
    s.push_str("\"latency\":{\"iqm\":20.818,\"low\":12.742,\"high\":58.591,\"jitter\":1.209}},");
    s.push_str("\"upload\":{\"bandwidth\":13008272,\"bytes\":162571060,\"elapsed\":12200,");
    s.push_str("\"latency\":{\"iqm\":29.03,\"low\":16.509,\"high\":54.483,\"jitter\":3.691}},");
    s.push_str("\"server\":{\"id\":12345,\"host\":\"speedtest.example.net\",\"port\":8080,");
    s.push_str("\"name\":\"Virtual Machines\",\"location\":\"Some City\",");
    s.push_str("\"country\":\"Testland\",\"ip\":\"203.0.113.5\"},");
    s.push_str("\"isp\":\"Test ISP\"}");
    s
}

#[test]
fn test_elapsed_seconds() {
    let test_result = TestResult {
        bandwidth: 1000,
        bytes: 2000,
        elapsed: 3200,
        latency: LatencyResult {
            iqm_micros: 5_000_000,
            low_micros: 1_000_000,
            high_micros: 10_000_000,
            jitter_micros: 2_000_000,
        },
    };

    let seconds = test_result.elapsed_seconds();
    assert_eq!(seconds.micros, 3_200_000);
    assert_eq!(seconds.micros as f64 / 1_000_000.0, 3.2);
}

#[test]
fn test_speedtest_result_from_json() {
    let json_str = fixture_json();

    let result = SpeedtestResult::from_json(&json_str);

    assert!(result.is_ok());

    let speedtest_result = result.unwrap();
    assert_eq!(speedtest_result.ping.latency_seconds().micros as f64 / 1_000_000.0, 0.01228);
    assert_eq!(speedtest_result.ping.low_seconds().micros as f64 / 1_000_000.0, 0.012192);
    assert_eq!(speedtest_result.ping.high_seconds().micros as f64 / 1_000_000.0, 0.012837);

    assert_eq!(speedtest_result.download.bandwidth, 39924051);
    assert_eq!(speedtest_result.download.bytes, 306775755);
    assert_eq!(speedtest_result.download.elapsed_seconds().micros as f64 / 1_000_000.0, 7.6);
    assert_eq!(speedtest_result.upload.bandwidth, 13008272);
    assert_eq!(speedtest_result.server.name, "Virtual Machines");
    assert_eq!(speedtest_result.isp, "Test ISP");
}

#[test]
fn ping_millis_convert_to_exact_micros() {
    let result = SpeedtestResult::from_json(&fixture_json()).unwrap();
    assert_eq!(result.ping.latency_micros, 12280);
    assert_eq!(result.ping.low_micros, 12192);
    assert_eq!(result.ping.high_micros, 12837);
    assert_eq!(result.ping.jitter_micros, 647);
    assert_eq!(result.download.elapsed, 7600);
    assert_eq!(result.upload.elapsed, 12200);
    assert_eq!(result.server.id, 12345);
    assert_eq!(result.server.host, "speedtest.example.net");
    assert_eq!(result.server.port, 8080);
    assert_eq!(result.server.location, "Some City");
    assert_eq!(result.server.country, "Testland");
    assert_eq!(result.server.ip, "203.0.113.5");
}

#[test]
fn truncated_document_fails_to_decode() {
    let json_str = "{\"ping\":{\"jitter\":0.647,\"latency\":12.28";
    let result = SpeedtestResult::from_json(json_str);
    assert_eq!(result.err(), Some(ParseError::Syntax));
}

#[test]
fn non_json_document_fails_to_decode() {
    assert_eq!(SpeedtestResult::from_json("").err(), Some(ParseError::Syntax));
    assert_eq!(SpeedtestResult::from_json("not json").err(), Some(ParseError::Syntax));
}

#[test]
fn missing_member_fails_to_decode() {
    assert_eq!(SpeedtestResult::from_json("{}").err(), Some(ParseError::Schema));
    // ping present but not an object
    let json_str = "{\"ping\":5}";
    assert_eq!(SpeedtestResult::from_json(json_str).err(), Some(ParseError::Schema));
}

#[test]
fn wrong_member_type_fails_to_decode() {
    // latency is a string, not a number
    let json_str = fixture_json().replace("\"latency\":12.28", "\"latency\":\"12.28\"");
    assert_eq!(SpeedtestResult::from_json(&json_str).err(), Some(ParseError::Schema));
}

#[test]
fn out_of_range_number_fails_to_decode() {
    // a negative latency is not a millisecond figure
    let json_str = fixture_json().replace("\"latency\":12.28", "\"latency\":-12.28");
    assert_eq!(SpeedtestResult::from_json(&json_str).err(), Some(ParseError::Range));

    // an elapsed time beyond the accepted bound
    let too_long = MAX_ELAPSED_MILLIS + 1;
    let json_str = fixture_json().replace("\"elapsed\":7600", &format!("\"elapsed\":{}", too_long));
    assert_eq!(SpeedtestResult::from_json(&json_str).err(), Some(ParseError::Range));
}

#[test]
fn elapsed_seconds_of_zero_is_zero() {
    let t = TestResult {
        bandwidth: 0,
        bytes: 0,
        elapsed: 0,
        latency: LatencyResult { iqm_micros: 0, low_micros: 0, high_micros: 0, jitter_micros: 0 },
    };
    assert_eq!(t.elapsed_seconds().micros, 0);
}

#[test]
fn parses_whole_milliseconds() {
    assert_eq!(parse_millis_to_micros(b"12"), Some(12_000));
    assert_eq!(parse_millis_to_micros(b"0"), Some(0));
    assert_eq!(parse_millis_to_micros(b"007"), Some(7_000));
    assert_eq!(parse_millis_to_micros(b"999999999999"), Some(999_999_999_999_000));
}

#[test]
fn parses_fractional_milliseconds() {
    assert_eq!(parse_millis_to_micros(b"12.28"), Some(12_280));
    assert_eq!(parse_millis_to_micros(b"0.001"), Some(1));
    assert_eq!(parse_millis_to_micros(b"3.2"), Some(3_200));
    // digits past the microsecond are floored away
    assert_eq!(parse_millis_to_micros(b"1.23456"), Some(1_234));
    assert_eq!(parse_millis_to_micros(b"0.6486666666666667"), Some(648));
}

#[test]
fn rejects_malformed_millisecond_figures() {
    assert_eq!(parse_millis_to_micros(b""), None);
    assert_eq!(parse_millis_to_micros(b"12."), None);
    assert_eq!(parse_millis_to_micros(b".5"), None);
    assert_eq!(parse_millis_to_micros(b"-1.5"), None);
    assert_eq!(parse_millis_to_micros(b"1e5"), None);
    assert_eq!(parse_millis_to_micros(b"12.2.8"), None);
    // thirteen integer digits are beyond the accepted range
    assert_eq!(parse_millis_to_micros(b"1000000000000"), None);
}
