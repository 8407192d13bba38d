use rnp::endpoint::{Endpoint, IpAddress, IpV4Addr};
use rnp::ping_client_tcp::{
    PingClientConfig, PingClientFailure, PingClientPingResultDetails, PingClientTcp,
    ProbeObservation,
};
use rnp::ping_error::{IoErrorDetail, IoErrorKind, PingClientError};
use rnp::ping_worker::{process_ping_client_result, PingWorkerConfig};
use rnp::timestamp::Timestamp;

fn client_config() -> PingClientConfig {
    PingClientConfig {
        wait_timeout_us: 300_000,
        time_to_live: None,
        check_disconnect: false,
        server_name: None,
        log_tls_key: false,
        alpn_protocol: None,
        use_timer_rtt: false,
    }
}

fn worker_config() -> PingWorkerConfig {
    PingWorkerConfig {
        target: Endpoint::new(IpAddress::V4(IpV4Addr::new(1, 2, 3, 4)), 443),
        source_ip: IpAddress::V4(IpV4Addr::new(5, 6, 7, 8)),
        protocol: "TCP".to_string(),
        ping_interval_us: 1_000_000,
        ping_client_config: client_config(),
    }
}

fn probe_time() -> Timestamp {
    Timestamp::new(2021, 7, 6, 9, 10, 11, 12)
}

#[test]
fn worker_swallows_address_in_use() {
    let outcome = Err(PingClientFailure {
        error: PingClientError::PreparationFailed(IoErrorDetail::new(
            IoErrorKind::AddrInUse,
            "address in use".to_string(),
        )),
        round_trip_time_us: 0,
    });
    let emitted =
        process_ping_client_result(1, &worker_config(), &probe_time(), 8080, false, outcome);
    assert!(emitted.is_none());
}

#[test]
fn worker_emits_other_preparation_failures() {
    let outcome = Err(PingClientFailure {
        error: PingClientError::PreparationFailed(IoErrorDetail::new(
            IoErrorKind::AddrNotAvailable,
            "address not available".to_string(),
        )),
        round_trip_time_us: 0,
    });
    let emitted =
        process_ping_client_result(1, &worker_config(), &probe_time(), 8080, false, outcome)
            .unwrap();
    assert!(emitted.is_preparation_error());
    assert_eq!(0, emitted.round_trip_time());
    assert!(!emitted.is_timed_out());
    // A preparation failure falls back to the requested source port.
    assert_eq!(Endpoint::new(IpAddress::V4(IpV4Addr::new(5, 6, 7, 8)), 8080), emitted.source());
}

#[test]
fn worker_keeps_reported_local_address() {
    let details = PingClientPingResultDetails::new(
        Some(Endpoint::new(IpAddress::V4(IpV4Addr::new(5, 6, 7, 8)), 50123)),
        12_500,
        false,
        None,
    );
    let emitted =
        process_ping_client_result(2, &worker_config(), &probe_time(), 8080, true, Ok(details))
            .unwrap();
    assert_eq!(Endpoint::new(IpAddress::V4(IpV4Addr::new(5, 6, 7, 8)), 50123), emitted.source());
    assert_eq!(12_500, emitted.round_trip_time());
    assert!(emitted.is_warmup());
    assert_eq!(2, emitted.worker_id());
    assert!(emitted.error().is_none());
}

#[test]
fn worker_synthesizes_source_when_unreported() {
    let details = PingClientPingResultDetails::new(None, 900, false, None);
    let emitted =
        process_ping_client_result(3, &worker_config(), &probe_time(), 9000, false, Ok(details))
            .unwrap();
    assert_eq!(Endpoint::new(IpAddress::V4(IpV4Addr::new(5, 6, 7, 8)), 9000), emitted.source());
}

#[test]
fn tcp_client_interprets_each_observation() {
    let client = PingClientTcp::new(&client_config());
    assert_eq!("TCP", client.protocol());

    let timed_out = client.interpret_probe(ProbeObservation::ConnectTimedOut, 300_000, None, None);
    let details = timed_out.unwrap();
    assert!(details.is_timed_out);
    assert_eq!(300_000, details.round_trip_time_us);
    assert!(details.actual_local_addr.is_none());

    let connected = client.interpret_probe(
        ProbeObservation::Connected,
        4_200,
        Some(Endpoint::new(IpAddress::V4(IpV4Addr::new(127, 0, 0, 1)), 40000)),
        None,
    );
    let details = connected.unwrap();
    assert!(!details.is_timed_out);
    assert_eq!(4_200, details.round_trip_time_us);
    assert_eq!(Some(Endpoint::new(IpAddress::V4(IpV4Addr::new(127, 0, 0, 1)), 40000)), details.actual_local_addr);

    let refused = client.interpret_probe(
        ProbeObservation::ConnectFailed(IoErrorDetail::new(
            IoErrorKind::ConnectionRefused,
            "connection refused".to_string(),
        )),
        150,
        None,
        None,
    );
    match refused {
        Err(failure) => {
            // The measured round-trip time survives the failure.
            assert_eq!(150, failure.round_trip_time_us);
            match failure.error {
                PingClientError::PingFailed(d) => {
                    assert_eq!(IoErrorKind::ConnectionRefused, d.kind);
                    assert_eq!("connection refused", d.message);
                },
                _ => panic!("a refused connect is a ping failure"),
            }
        },
        _ => panic!("a refused connect is a failure"),
    }

    let prep = client.interpret_probe(
        ProbeObservation::PreparationFailed(IoErrorDetail::new(
            IoErrorKind::AddrNotAvailable,
            "invalid source address".to_string(),
        )),
        0,
        None,
        None,
    );
    match prep {
        Err(failure) => {
            assert_eq!(0, failure.round_trip_time_us);
            match failure.error {
                PingClientError::PreparationFailed(d) => {
                    assert_eq!(IoErrorKind::AddrNotAvailable, d.kind);
                },
                _ => panic!("a bind failure is a preparation failure"),
            }
        },
        _ => panic!("a bind failure is a failure"),
    }
}

#[test]
fn tcp_client_setup_plan_follows_config() {
    let mut config = client_config();
    config.time_to_live = Some(64);
    let client = PingClientTcp::new(&config);
    let plan = client.socket_setup_plan();
    assert_eq!(300_000, plan.receive_timeout_us);
    assert!(plan.linger_zero);
    assert_eq!(Some(64), plan.time_to_live);

    config.check_disconnect = true;
    let client = PingClientTcp::new(&config);
    assert!(!client.socket_setup_plan().linger_zero);
}

#[test]
fn worker_reports_measured_rtt_on_ping_failure() {
    let outcome = Err(PingClientFailure {
        error: PingClientError::PingFailed(IoErrorDetail::new(
            IoErrorKind::ConnectionRefused,
            "connection refused".to_string(),
        )),
        round_trip_time_us: 2_500,
    });
    let emitted =
        process_ping_client_result(4, &worker_config(), &probe_time(), 8081, false, outcome)
            .unwrap();
    // A refused connect still reports the time the attempt measured.
    assert_eq!(2_500, emitted.round_trip_time());
    assert!(!emitted.is_timed_out());
    assert!(!emitted.is_preparation_error());
    assert!(emitted.error().is_some());
}
