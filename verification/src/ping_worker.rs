//! The probe worker's decisions: what one probe outcome becomes on the
//! result channel.
//!
//! The worker loop itself (acquiring a port, running the probe, pacing,
//! watching the stop signal) is asynchronous plumbing outside the library;
//! the translation of a probe outcome into the emitted record — including the
//! one silent drop the design allows — lives here.

use vstd::prelude::*;
use crate::endpoint::{Endpoint, IpAddress};
use crate::ping_client_tcp::{PingClientConfig, PingClientFailure, PingClientPingResultDetails};
use crate::ping_error::{IoErrorKind, PingClientError};
use crate::ping_result::PingResult;
use crate::port_picker::PingPortPicker;
use crate::timestamp::Timestamp;

verus! {

/// Immutable per-worker parameters: the fixed target, the configured source
/// address, the protocol tag, the per-probe pacing interval in microseconds,
/// and the probe client's own configuration.
#[derive(Debug)]
pub struct PingWorkerConfig {
    pub target: Endpoint,
    pub source_ip: IpAddress,
    pub protocol: String,
    pub ping_interval_us: u64,
    pub ping_client_config: PingClientConfig,
}

/// The probe outcome is dropped silently rather than emitted: the local
/// source port was already taken, so the worker just moves on to the next
/// port.
pub open spec fn spec_is_swallowed(outcome: Result<PingClientPingResultDetails, PingClientFailure>) -> bool {
    outcome matches Err(f) && f.error matches PingClientError::PreparationFailed(d) && d.kind
        == IoErrorKind::AddrInUse
}

/// The source endpoint the emitted record carries: the local endpoint the
/// transport reported, or the configured source address with the requested
/// port when it could not report one.
pub open spec fn spec_emitted_source(
    config: PingWorkerConfig,
    src_port: u16,
    outcome: Result<PingClientPingResultDetails, PingClientFailure>,
) -> Endpoint {
    match outcome {
        Ok(details) => match details.actual_local_addr {
            Some(addr) => addr,
            None => Endpoint { ip: config.source_ip, port: src_port },
        },
        Err(_) => Endpoint { ip: config.source_ip, port: src_port },
    }
}

/// How many of the attempted probes' outcomes are emitted as results.
pub open spec fn spec_emitted_count(
    outcomes: Seq<Result<PingClientPingResultDetails, PingClientFailure>>,
) -> nat
    decreases outcomes.len(),
{
    if outcomes.len() == 0 {
        0
    } else {
        (if spec_is_swallowed(outcomes[0]) {
            0nat
        } else {
            1nat
        }) + spec_emitted_count(outcomes.drop_first())
    }
}

/// Of any run of attempted probes, at most one result per attempt is
/// emitted, and the swallowed address-in-use bind failures are the only
/// source of the inequality: without them, exactly one result per attempt.
pub proof fn lemma_emitted_at_most_attempted(
    outcomes: Seq<Result<PingClientPingResultDetails, PingClientFailure>>,
)
    ensures
        spec_emitted_count(outcomes) <= outcomes.len(),
        (forall|i: int| 0 <= i < outcomes.len() ==> !spec_is_swallowed(#[trigger] outcomes[i]))
            ==> spec_emitted_count(outcomes) == outcomes.len(),
    decreases outcomes.len(),
{
    if outcomes.len() > 0 {
        lemma_emitted_at_most_attempted(outcomes.drop_first());
        assert forall|i: int|
            0 <= i < outcomes.drop_first().len() implies #[trigger] outcomes.drop_first()[i]
            == outcomes[i + 1] by {}
    }
}

/// The number of warmup records among the emitted results of a run, when
/// the `i`-th acquired `(port, warmup)` pair rides on the `i`-th outcome:
/// a swallowed outcome emits nothing, every other one emits a record whose
/// warmup flag is the acquired one.
pub open spec fn spec_emitted_warmup_count(
    picks: Seq<(u16, bool)>,
    outcomes: Seq<Result<PingClientPingResultDetails, PingClientFailure>>,
) -> nat
    decreases picks.len(),
{
    if picks.len() == 0 || outcomes.len() == 0 {
        0
    } else {
        (if !spec_is_swallowed(outcomes[0]) && picks[0].1 {
            1nat
        } else {
            0nat
        }) + spec_emitted_warmup_count(picks.drop_first(), outcomes.drop_first())
    }
}

proof fn lemma_emitted_warmup_no_swallow(
    picks: Seq<(u16, bool)>,
    outcomes: Seq<Result<PingClientPingResultDetails, PingClientFailure>>,
)
    requires
        outcomes.len() == picks.len(),
        forall|i: int| 0 <= i < outcomes.len() ==> !spec_is_swallowed(#[trigger] outcomes[i]),
    ensures
        spec_emitted_warmup_count(picks, outcomes) == PingPortPicker::spec_warmup_count(picks),
    decreases picks.len(),
{
    if picks.len() > 0 {
        assert forall|i: int|
            0 <= i < outcomes.drop_first().len() implies !spec_is_swallowed(
            #[trigger] outcomes.drop_first()[i],
        ) by {
            assert(outcomes.drop_first()[i] == outcomes[i + 1]);
        }
        lemma_emitted_warmup_no_swallow(picks.drop_first(), outcomes.drop_first());
    }
}

/// The warmup tally a run's processors see: over the picks a picker state
/// issues in `n` calls, with one probe outcome per pick and none swallowed,
/// the number of warmup-flagged records that reach the result channel is the
/// smaller of the number of emitted results and the warmup budget. (Each
/// emitted record's flag equals the acquired one, by the contract of
/// `process_ping_client_result`; a swallowed address-in-use bind failure
/// removes its record from both sides of the tally.)
pub proof fn lemma_warmup_results_reach_processors(
    picker: PingPortPicker,
    n: nat,
    outcomes: Seq<Result<PingClientPingResultDetails, PingClientFailure>>,
)
    requires
        outcomes.len() == picker.spec_picks(n).len(),
        forall|i: int| 0 <= i < outcomes.len() ==> !spec_is_swallowed(#[trigger] outcomes[i]),
    ensures
        spec_emitted_warmup_count(picker.spec_picks(n), outcomes) == if picker.spec_picks(n).len()
            <= picker.remaining_warmup {
            picker.spec_picks(n).len()
        } else {
            picker.remaining_warmup as nat
        },
{
    lemma_emitted_warmup_no_swallow(picker.spec_picks(n), outcomes);
    picker.lemma_picks_warmup_total(n);
}

/// Translates one probe outcome into the record the worker emits, or `None`
/// for the one case the design swallows: an address-in-use failure while
/// binding the source port.
///
/// Every emitted record is well formed: a timed-out probe carries no error,
/// a failed probe carries its error together with the round-trip time the
/// failure measured (zero for a preparation failure, which never reached the
/// connect), and a successful probe carries the measured round-trip time.
pub fn process_ping_client_result(
    worker_id: u32,
    config: &PingWorkerConfig,
    ping_time: &Timestamp,
    src_port: u16,
    is_warmup: bool,
    ping_outcome: Result<PingClientPingResultDetails, PingClientFailure>,
) -> (r: Option<PingResult>)
    requires
        ping_time.wf(),
    ensures
        r is None <==> spec_is_swallowed(ping_outcome),
        r matches Some(emitted) ==> {
            &&& emitted.wf()
            &&& emitted.ping_time == *ping_time
            &&& emitted.worker_id == worker_id
            &&& emitted.protocol@ == config.protocol@
            &&& emitted.target == config.target
            &&& emitted.source == spec_emitted_source(*config, src_port, ping_outcome)
            &&& emitted.is_warmup == is_warmup
            &&& emitted.round_trip_time == (match ping_outcome {
                Ok(details) => details.round_trip_time_us,
                Err(f) => f.round_trip_time_us,
            })
            &&& emitted.is_timed_out == (ping_outcome matches Ok(details) && details.is_timed_out)
            &&& emitted.error == (match ping_outcome {
                Ok(_) => None::<PingClientError>,
                Err(f) => Some(f.error),
            })
        },
{
    match ping_outcome {
        Ok(details) => {
            let source = match details.actual_local_addr {
                Some(addr) => addr,
                None => Endpoint::new(config.source_ip, src_port),
            };
            Some(
                PingResult::new(
                    ping_time,
                    worker_id,
                    config.protocol.as_str(),
                    config.target,
                    source,
                    is_warmup,
                    details.round_trip_time_us,
                    details.is_timed_out,
                    None,
                ),
            )
        },
        Err(failure) => {
            match &failure.error {
                PingClientError::PreparationFailed(d) => {
                    if d.kind == IoErrorKind::AddrInUse {
                        return None;
                    }
                },
                PingClientError::PingFailed(_) => {},
            }
            let source = Endpoint::new(config.source_ip, src_port);
            Some(
                PingResult::new(
                    ping_time,
                    worker_id,
                    config.protocol.as_str(),
                    config.target,
                    source,
                    is_warmup,
                    failure.round_trip_time_us,
                    false,
                    Some(failure.error),
                ),
            )
        },
    }
}

} // verus!
