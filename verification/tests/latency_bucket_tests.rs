use rnp::endpoint::{Endpoint, IpAddress, IpV4Addr};
use rnp::latency_bucket_logger::PingResultProcessorLatencyBucketLogger;
use rnp::ping_error::{IoErrorDetail, IoErrorKind, PingClientError};
use rnp::ping_result::PingResult;
use rnp::timestamp::Timestamp;

fn tally_samples() -> Vec<PingResult> {
    let time = Timestamp::new(2021, 7, 6, 9, 10, 11, 12);
    let target = Endpoint::new(IpAddress::V4(IpV4Addr::new(1, 2, 3, 4)), 443);
    let source = Endpoint::new(IpAddress::V4(IpV4Addr::new(5, 6, 7, 8)), 8080);
    vec![
        PingResult::new(&time, 1, "TCP", target, source, false, 10_000, false, None),
        PingResult::new(&time, 1, "TCP", target, source, false, 1_000_000, true, None),
        PingResult::new(
            &time,
            1,
            "TCP",
            target,
            source,
            false,
            0,
            false,
            Some(PingClientError::PingFailed(IoErrorDetail::new(
                IoErrorKind::ConnectionRefused,
                "connect failed".to_string(),
            ))),
        ),
    ]
}

// The configured separators 0.1, 0.5, 1.0, 10.0, 50.0 and 100.0 milliseconds,
// normalized to microseconds.
fn separators_in_us() -> Vec<u64> {
    vec![100, 500, 1_000, 10_000, 50_000, 100_000]
}

#[test]
fn latency_bucket_logger_should_work() {
    let mut logger = PingResultProcessorLatencyBucketLogger::new(&separators_in_us());
    for r in tally_samples().iter() {
        logger.process(r);
    }

    assert_eq!(3, logger.total_hit_count);
    assert_eq!(1, logger.timed_out_hit_count);
    assert_eq!(1, logger.failed_hit_count);
}

#[test]
fn latency_buckets_place_success_under_fifty_ms() {
    let mut logger = PingResultProcessorLatencyBucketLogger::new(&separators_in_us());
    for r in tally_samples().iter() {
        logger.process(r);
    }

    // A 10 ms round trip falls into the first bucket whose bound exceeds it:
    // `< 50.00ms`. Every other latency bucket stays empty.
    assert_eq!(vec![0u32, 0, 0, 0, 1, 0, 0], logger.bucket_hit_counts);
}

#[test]
fn latency_bucket_boundary_value_falls_into_next_bucket() {
    let mut logger = PingResultProcessorLatencyBucketLogger::new(&separators_in_us());
    // Exactly 0.1 ms: the bound is strict, so the hit lands in `< 0.50ms`.
    let time = Timestamp::new(2021, 7, 6, 9, 10, 11, 12);
    let target = Endpoint::new(IpAddress::V4(IpV4Addr::new(1, 2, 3, 4)), 443);
    let source = Endpoint::new(IpAddress::V4(IpV4Addr::new(5, 6, 7, 8)), 8080);
    let boundary = PingResult::new(&time, 1, "TCP", target, source, false, 100, false, None);
    logger.process(&boundary);
    assert_eq!(vec![0u32, 1, 0, 0, 0, 0, 0], logger.bucket_hit_counts);
}

#[test]
fn latency_bucket_report_lines_are_exact() {
    let mut logger = PingResultProcessorLatencyBucketLogger::new(&separators_in_us());
    for r in tally_samples().iter() {
        logger.process(r);
    }

    let expected: Vec<String> = vec![
        "",
        "=== Latency buckets (in milliseconds) ===",
        "",
        "  Latency Range | Count",
        "----------------+------------ ",
        "       < 0.10ms | 0",
        "       < 0.50ms | 0",
        "       < 1.00ms | 0",
        "      < 10.00ms | 0",
        "      < 50.00ms | 1",
        "     < 100.00ms | 0",
        "    >= 100.00ms | 0",
        "      Timed Out | 1",
        "         Failed | 1",
        "----------------+------------ ",
        "          Total | 3",
    ]
    .into_iter()
    .map(|s| s.to_string())
    .collect();

    assert_eq!(expected, logger.done());
}
