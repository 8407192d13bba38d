use rnp::endpoint::{Endpoint, IpAddress, IpV4Addr, IpV6Addr};
use rnp::ping_error::{IoErrorDetail, IoErrorKind, PingClientError};
use rnp::ping_result::PingResult;
use rnp::test_samples::generate_ping_result_test_samples;
use rnp::timestamp::Timestamp;

fn sample_time() -> Timestamp {
    Timestamp::new(2021, 7, 6, 9, 10, 11, 12)
}

fn sample_target() -> Endpoint {
    Endpoint::new(IpAddress::V4(IpV4Addr::new(1, 2, 3, 4)), 443)
}

fn sample_source() -> Endpoint {
    Endpoint::new(IpAddress::V4(IpV4Addr::new(5, 6, 7, 8)), 8080)
}

#[test]
fn new_ping_result_should_work() {
    let r = PingResult::new(
        &sample_time(),
        1,
        "TCP",
        sample_target(),
        sample_source(),
        true,
        10_000,
        false,
        None,
    );

    assert_eq!(1, r.worker_id());
    assert_eq!("TCP", r.protocol().as_str());
    assert_eq!(sample_target(), r.target());
    assert_eq!(sample_source(), r.source());
    assert!(r.is_warmup());
    assert_eq!(10_000, r.round_trip_time());
    assert!(r.error().is_none());
    assert!(!r.is_timed_out());
    assert_eq!(sample_time(), r.ping_time());
}

#[test]
fn format_ping_result_as_log_should_work() {
    let results = generate_ping_result_test_samples();
    assert_eq!(
        vec![
            "Reaching TCP 1.2.3.4:443 from 5.6.7.8:8080 (warmup) succeeded: RTT=10.00ms",
            "Reaching TCP 1.2.3.4:443 from 5.6.7.8:8080 failed: Timed out, RTT = 1000.00ms",
            "Reaching TCP 1.2.3.4:443 from 5.6.7.8:8080 failed: connect failed",
            "Unable to perform ping to TCP 1.2.3.4:443 from 5.6.7.8:8080, because failing to prepare local socket: Error = address in use",
        ],
        results.iter().map(|x| x.format_as_console_log()).collect::<Vec<String>>()
    );
}

#[test]
fn format_ping_result_as_json_should_work() {
    let results = generate_ping_result_test_samples();
    assert_eq!(
        vec![
            "{\"utcTime\":\"2021-07-06T09:10:11.012Z\",\"protocol\":\"TCP\",\"workerId\":1,\"targetIP\":\"1.2.3.4\",\"targetPort\":\"443\",\"sourceIP\":\"5.6.7.8\",\"sourcePort\":\"8080\",\"isWarmup\":\"true\",\"roundTripTimeInMs\":10.00,\"isTimedOut\":\"false\",\"error\":\"\",\"isPreparationError\":\"false\"}",
            "{\"utcTime\":\"2021-07-06T09:10:11.012Z\",\"protocol\":\"TCP\",\"workerId\":1,\"targetIP\":\"1.2.3.4\",\"targetPort\":\"443\",\"sourceIP\":\"5.6.7.8\",\"sourcePort\":\"8080\",\"isWarmup\":\"false\",\"roundTripTimeInMs\":1000.00,\"isTimedOut\":\"true\",\"error\":\"\",\"isPreparationError\":\"false\"}",
            "{\"utcTime\":\"2021-07-06T09:10:11.012Z\",\"protocol\":\"TCP\",\"workerId\":1,\"targetIP\":\"1.2.3.4\",\"targetPort\":\"443\",\"sourceIP\":\"5.6.7.8\",\"sourcePort\":\"8080\",\"isWarmup\":\"false\",\"roundTripTimeInMs\":0.00,\"isTimedOut\":\"false\",\"error\":\"ping failed: connect failed\",\"isPreparationError\":\"false\"}",
            "{\"utcTime\":\"2021-07-06T09:10:11.012Z\",\"protocol\":\"TCP\",\"workerId\":1,\"targetIP\":\"1.2.3.4\",\"targetPort\":\"443\",\"sourceIP\":\"5.6.7.8\",\"sourcePort\":\"8080\",\"isWarmup\":\"false\",\"roundTripTimeInMs\":0.00,\"isTimedOut\":\"false\",\"error\":\"preparation failed: address in use\",\"isPreparationError\":\"true\"}",
        ],
        results.iter().map(|x| x.format_as_json_string()).collect::<Vec<String>>()
    );
}

#[test]
fn format_ping_result_as_csv_should_work() {
    let results = generate_ping_result_test_samples();
    assert_eq!(
        vec![
            "2021-07-06T09:10:11.012Z,1,TCP,1.2.3.4,443,5.6.7.8,8080,true,10.00,false,\"\",false",
            "2021-07-06T09:10:11.012Z,1,TCP,1.2.3.4,443,5.6.7.8,8080,false,1000.00,true,\"\",false",
            "2021-07-06T09:10:11.012Z,1,TCP,1.2.3.4,443,5.6.7.8,8080,false,0.00,false,\"ping failed: connect failed\",false",
            "2021-07-06T09:10:11.012Z,1,TCP,1.2.3.4,443,5.6.7.8,8080,false,0.00,false,\"preparation failed: address in use\",true",
        ],
        results.iter().map(|x| x.format_as_csv_string()).collect::<Vec<String>>()
    );
}

#[test]
fn formatters_are_deterministic_across_calls() {
    let results = generate_ping_result_test_samples();
    for r in &results {
        assert_eq!(r.format_as_console_log(), r.format_as_console_log());
        assert_eq!(r.format_as_json_string(), r.format_as_json_string());
        assert_eq!(r.format_as_csv_string(), r.format_as_csv_string());
    }
}

#[test]
fn is_preparation_error_tracks_error_variant() {
    let results = generate_ping_result_test_samples();
    assert!(!results[0].is_preparation_error());
    assert!(!results[1].is_preparation_error());
    assert!(!results[2].is_preparation_error());
    assert!(results[3].is_preparation_error());
}

#[test]
fn ping_failure_line_reports_inner_message() {
    let r = PingResult::new(
        &sample_time(),
        7,
        "TCP",
        sample_target(),
        sample_source(),
        false,
        0,
        false,
        Some(PingClientError::PingFailed(IoErrorDetail::new(
            IoErrorKind::ConnectionReset,
            "connection reset by peer".to_string(),
        ))),
    );
    assert_eq!(
        "Reaching TCP 1.2.3.4:443 from 5.6.7.8:8080 failed: connection reset by peer",
        r.format_as_console_log()
    );
    assert_eq!(
        "ping failed: connection reset by peer",
        r.error().as_ref().unwrap().to_display_string()
    );
}

#[test]
fn formats_ipv6_endpoints() {
    let target = Endpoint::new(
        IpAddress::V6(IpV6Addr::new([0x2001, 0xdb8, 0, 0, 0, 0, 0, 1])),
        443,
    );
    let source = Endpoint::new(
        IpAddress::V6(IpV6Addr::new([0xfe80, 0, 0, 0, 0, 0, 0, 9])),
        8080,
    );
    let r = PingResult::new(
        &sample_time(),
        1,
        "TCP",
        target,
        source,
        false,
        10_000,
        false,
        None,
    );
    assert_eq!(
        "Reaching TCP [2001:db8::1]:443 from [fe80::9]:8080 succeeded: RTT=10.00ms",
        r.format_as_console_log()
    );
    let json = r.format_as_json_string();
    assert!(json.contains("\"targetIP\":\"2001:db8::1\""));
    assert!(json.contains("\"sourceIP\":\"fe80::9\""));
}
