//! Canonical sample records: one per probe outcome.
//!
//! The samples pin one record of each shape — a warmup success, a timeout, a
//! ping failure and a preparation failure — with the same instant, endpoints
//! and worker, so formatters and processors can be exercised against known
//! values.

use vstd::prelude::*;
use crate::endpoint::{Endpoint, IpAddress, IpV4Addr};
use crate::ping_error::{IoErrorDetail, IoErrorKind, PingClientError};
use crate::ping_result::PingResult;
use crate::timestamp::Timestamp;

verus! {

/// The shared instant of the samples.
pub open spec fn spec_sample_time() -> Timestamp {
    Timestamp { year: 2021, month: 7, day: 6, hour: 9, minute: 10, second: 11, millisecond: 12 }
}

/// The shared target of the samples.
pub open spec fn spec_sample_target() -> Endpoint {
    Endpoint { ip: IpAddress::V4(IpV4Addr { a: 1, b: 2, c: 3, d: 4 }), port: 443 }
}

/// The shared source of the samples.
pub open spec fn spec_sample_source() -> Endpoint {
    Endpoint { ip: IpAddress::V4(IpV4Addr { a: 5, b: 6, c: 7, d: 8 }), port: 8080 }
}

/// Builds one record of each probe outcome, in order: a warmup success with
/// a 10 ms round trip, a timeout after 1000 ms, a failure to reach the
/// remote, and a failure to prepare the local socket.
pub fn generate_ping_result_test_samples() -> (r: Vec<PingResult>)
    ensures
        r@.len() == 4,
        forall|i: int|
            0 <= i < 4 ==> {
                &&& (#[trigger] r@[i]).wf()
                &&& r@[i].ping_time == spec_sample_time()
                &&& r@[i].worker_id == 1
                &&& r@[i].protocol@ == "TCP"@
                &&& r@[i].target == spec_sample_target()
                &&& r@[i].source == spec_sample_source()
            },
        r@[0].is_warmup && !r@[0].is_timed_out && r@[0].error is None && r@[0].round_trip_time
            == 10_000,
        !r@[1].is_warmup && r@[1].is_timed_out && r@[1].error is None && r@[1].round_trip_time
            == 1_000_000,
        !r@[2].is_warmup && !r@[2].is_timed_out && r@[2].round_trip_time == 0,
        r@[2].error matches Some(PingClientError::PingFailed(d)) && d.kind
            == IoErrorKind::ConnectionRefused && d.message@ == "connect failed"@,
        !r@[3].is_warmup && !r@[3].is_timed_out && r@[3].round_trip_time == 0,
        r@[3].error matches Some(PingClientError::PreparationFailed(d)) && d.kind
            == IoErrorKind::AddrInUse && d.message@ == "address in use"@,
{
    let time = Timestamp::new(2021, 7, 6, 9, 10, 11, 12);
    let target = Endpoint::new(IpAddress::V4(IpV4Addr::new(1, 2, 3, 4)), 443);
    let source = Endpoint::new(IpAddress::V4(IpV4Addr::new(5, 6, 7, 8)), 8080);

    let mut samples: Vec<PingResult> = Vec::new();

    // Succeeded, during warmup.
    samples.push(
        PingResult::new(&time, 1, "TCP", target, source, true, 10_000, false, None),
    );

    // Timed out.
    samples.push(
        PingResult::new(&time, 1, "TCP", target, source, false, 1_000_000, true, None),
    );

    // Failed to reach the remote.
    samples.push(
        PingResult::new(
            &time,
            1,
            "TCP",
            target,
            source,
            false,
            0,
            false,
            Some(
                PingClientError::PingFailed(
                    IoErrorDetail::new(
                        IoErrorKind::ConnectionRefused,
                        String::from_str("connect failed"),
                    ),
                ),
            ),
        ),
    );

    // Failed to prepare local resources, such as binding the source port.
    samples.push(
        PingResult::new(
            &time,
            1,
            "TCP",
            target,
            source,
            false,
            0,
            false,
            Some(
                PingClientError::PreparationFailed(
                    IoErrorDetail::new(
                        IoErrorKind::AddrInUse,
                        String::from_str("address in use"),
                    ),
                ),
            ),
        ),
    );

    samples
}

} // verus!
