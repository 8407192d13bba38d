//! The immutable record of one probe attempt, and its three renderings.
//!
//! Exactly one of success, timeout and error holds of a well-formed record;
//! a timeout is not an error. Each formatter's output is pinned, character
//! for character, to a spec function of the record, so the console line and
//! the JSON / CSV sink records are deterministic functions of the record.

use vstd::prelude::*;
use crate::endpoint::Endpoint;
use crate::ping_error::PingClientError;
use crate::strfmt::{spec_bool, spec_dec, spec_ms_two_decimals, bool_str, dec_u128, ms_two_decimals};
use crate::timestamp::Timestamp;

verus! {

/// One probe attempt: when and by whom it ran, the two endpoints, and how it
/// ended. `round_trip_time` is in microseconds.
#[derive(Debug)]
pub struct PingResult {
    pub ping_time: Timestamp,
    pub worker_id: u32,
    pub protocol: String,
    pub target: Endpoint,
    pub source: Endpoint,
    pub is_warmup: bool,
    pub round_trip_time: u64,
    pub is_timed_out: bool,
    pub error: Option<PingClientError>,
}

impl PingResult {
    /// The record is consistent: its instant is a calendar instant, and a
    /// timed-out probe carries no error.
    pub open spec fn wf(self) -> bool {
        &&& self.ping_time.wf()
        &&& !(self.is_timed_out && self.error is Some)
    }

    /// The probe succeeded: it neither timed out nor failed.
    pub open spec fn spec_is_success(self) -> bool {
        !self.is_timed_out && self.error is None
    }

    /// The error, if any, is a local socket preparation failure.
    pub open spec fn spec_is_preparation_error(self) -> bool {
        self.error matches Some(PingClientError::PreparationFailed(_))
    }

    pub fn new(
        time: &Timestamp,
        worker_id: u32,
        protocol: &str,
        target: Endpoint,
        source: Endpoint,
        is_warmup: bool,
        round_trip_time: u64,
        is_timed_out: bool,
        error: Option<PingClientError>,
    ) -> (r: PingResult)
        requires
            time.wf(),
            !(is_timed_out && error is Some),
        ensures
            r.ping_time == *time,
            r.worker_id == worker_id,
            r.protocol@ == protocol@,
            r.target == target,
            r.source == source,
            r.is_warmup == is_warmup,
            r.round_trip_time == round_trip_time,
            r.is_timed_out == is_timed_out,
            r.error == error,
            r.wf(),
    {
        PingResult {
            ping_time: *time,
            worker_id,
            protocol: protocol.to_owned(),
            target,
            source,
            is_warmup,
            round_trip_time,
            is_timed_out,
            error,
        }
    }

    pub fn ping_time(&self) -> (r: Timestamp)
        ensures
            r == self.ping_time,
    {
        self.ping_time
    }

    pub fn worker_id(&self) -> (r: u32)
        ensures
            r == self.worker_id,
    {
        self.worker_id
    }

    pub fn protocol(&self) -> (r: &String)
        ensures
            r@ == self.protocol@,
    {
        &self.protocol
    }

    pub fn target(&self) -> (r: Endpoint)
        ensures
            r == self.target,
    {
        self.target
    }

    pub fn source(&self) -> (r: Endpoint)
        ensures
            r == self.source,
    {
        self.source
    }

    pub fn is_warmup(&self) -> (r: bool)
        ensures
            r == self.is_warmup,
    {
        self.is_warmup
    }

    /// The measured round-trip time, in microseconds.
    pub fn round_trip_time(&self) -> (r: u64)
        ensures
            r == self.round_trip_time,
    {
        self.round_trip_time
    }

    pub fn is_timed_out(&self) -> (r: bool)
        ensures
            r == self.is_timed_out,
    {
        self.is_timed_out
    }

    pub fn error(&self) -> (r: &Option<PingClientError>)
        ensures
            *r == self.error,
    {
        &self.error
    }

    /// True exactly when the error is a preparation failure.
    pub fn is_preparation_error(&self) -> (r: bool)
        ensures
            r == self.spec_is_preparation_error(),
    {
        match &self.error {
            Some(PingClientError::PreparationFailed(_)) => true,
            _ => false,
        }
    }

    /// Of a well-formed record, exactly one of success, timeout and error
    /// holds.
    pub proof fn lemma_outcome_exclusive(self)
        requires
            self.wf(),
        ensures
            self.spec_is_success() ==> !self.is_timed_out && !(self.error is Some),
            self.is_timed_out ==> !self.spec_is_success() && !(self.error is Some),
            self.error is Some ==> !self.spec_is_success() && !self.is_timed_out,
            self.spec_is_success() || self.is_timed_out || self.error is Some,
    {
    }

    /// The two error fields describe the same failure: both absent, or the
    /// same variant with the same kind and the same message text.
    pub open spec fn spec_same_error(x: Option<PingClientError>, y: Option<PingClientError>) -> bool {
        match (x, y) {
            (None, None) => true,
            (
                Some(PingClientError::PreparationFailed(dx)),
                Some(PingClientError::PreparationFailed(dy)),
            ) => dx.kind == dy.kind && dx.message@ == dy.message@,
            (Some(PingClientError::PingFailed(dx)), Some(PingClientError::PingFailed(dy))) =>
                dx.kind == dy.kind && dx.message@ == dy.message@,
            _ => false,
        }
    }

    /// The two records carry the same probe tuple: every field agrees, with
    /// text fields compared by their character sequences.
    pub open spec fn spec_same_tuple(self, other: PingResult) -> bool {
        &&& self.ping_time == other.ping_time
        &&& self.worker_id == other.worker_id
        &&& self.protocol@ == other.protocol@
        &&& self.target == other.target
        &&& self.source == other.source
        &&& self.is_warmup == other.is_warmup
        &&& self.round_trip_time == other.round_trip_time
        &&& self.is_timed_out == other.is_timed_out
        &&& Self::spec_same_error(self.error, other.error)
    }

    /// Each rendering is a deterministic function of the probe tuple alone:
    /// two records with the same tuple render to the same console line and
    /// the same JSON and CSV records, so repeated renderings of one record
    /// are byte-identical.
    pub proof fn lemma_formatters_deterministic(self, other: PingResult)
        requires
            self.spec_same_tuple(other),
        ensures
            self.spec_console_log() == other.spec_console_log(),
            self.spec_json_record() == other.spec_json_record(),
            self.spec_csv_record() == other.spec_csv_record(),
    {
    }

    /// The error message of the record as the structured sinks show it:
    /// empty on success and timeout, the prefixed display otherwise.
    pub open spec fn spec_error_display(self) -> Seq<char> {
        match self.error {
            Some(e) => e.spec_display(),
            None => Seq::<char>::empty(),
        }
    }

    /// ` (warmup)` on a warmup probe, empty otherwise.
    pub open spec fn spec_warmup_sign(self) -> Seq<char> {
        if self.is_warmup {
            " (warmup)"@
        } else {
            Seq::<char>::empty()
        }
    }

    /// The common head of the console lines that name the probe:
    /// `Reaching {protocol} {target} from {source}{warmup?}`.
    pub open spec fn spec_reaching_head(self) -> Seq<char> {
        "Reaching "@ + self.protocol@ + " "@ + self.target.spec_display() + " from "@
            + self.source.spec_display() + self.spec_warmup_sign()
    }

    /// The human-readable console line for the record.
    pub open spec fn spec_console_log(self) -> Seq<char> {
        if self.is_timed_out {
            self.spec_reaching_head() + " failed: Timed out, RTT = "@
                + spec_ms_two_decimals(self.round_trip_time as int) + "ms"@
        } else {
            match self.error {
                Some(PingClientError::PreparationFailed(d)) => {
                    "Unable to perform ping to "@ + self.protocol@ + " "@
                        + self.target.spec_display() + " from "@ + self.source.spec_display()
                        + self.spec_warmup_sign()
                        + ", because failing to prepare local socket: Error = "@ + d.message@
                },
                Some(PingClientError::PingFailed(d)) => {
                    self.spec_reaching_head() + " failed: "@ + d.message@
                },
                None => {
                    self.spec_reaching_head() + " succeeded: RTT="@
                        + spec_ms_two_decimals(self.round_trip_time as int) + "ms"@
                },
            }
        }
    }

    /// The one-line JSON record for the record.
    pub open spec fn spec_json_record(self) -> Seq<char> {
        "{\"utcTime\":\""@ + self.ping_time.spec_iso8601() + "\",\"protocol\":\""@
            + self.protocol@ + "\",\"workerId\":"@ + spec_dec(self.worker_id as int)
            + ",\"targetIP\":\""@ + self.target.ip.spec_display() + "\",\"targetPort\":\""@
            + spec_dec(self.target.port as int) + "\",\"sourceIP\":\""@
            + self.source.ip.spec_display() + "\",\"sourcePort\":\""@
            + spec_dec(self.source.port as int) + "\",\"isWarmup\":\""@
            + spec_bool(self.is_warmup) + "\",\"roundTripTimeInMs\":"@
            + spec_ms_two_decimals(self.round_trip_time as int) + ",\"isTimedOut\":\""@
            + spec_bool(self.is_timed_out) + "\",\"error\":\""@ + self.spec_error_display()
            + "\",\"isPreparationError\":\""@ + spec_bool(self.spec_is_preparation_error())
            + "\"}"@
    }

    /// The CSV record line for the record.
    pub open spec fn spec_csv_record(self) -> Seq<char> {
        self.ping_time.spec_iso8601() + ","@ + spec_dec(self.worker_id as int) + ","@
            + self.protocol@ + ","@ + self.target.ip.spec_display() + ","@
            + spec_dec(self.target.port as int) + ","@ + self.source.ip.spec_display() + ","@
            + spec_dec(self.source.port as int) + ","@ + spec_bool(self.is_warmup) + ","@
            + spec_ms_two_decimals(self.round_trip_time as int) + ","@
            + spec_bool(self.is_timed_out) + ",\""@ + self.spec_error_display() + "\","@
            + spec_bool(self.spec_is_preparation_error())
    }

    fn reaching_head(&self) -> (s: String)
        ensures
            s@ == self.spec_reaching_head(),
    {
        proof {
            reveal_strlit("Reaching ");
            reveal_strlit(" ");
            reveal_strlit(" from ");
            reveal_strlit(" (warmup)");
        }
        let mut s = String::from_str("Reaching ");
        s.append(self.protocol.as_str());
        s.append(" ");
        let part = self.target.to_display_string();
        s.append(part.as_str());
        s.append(" from ");
        let part = self.source.to_display_string();
        s.append(part.as_str());
        if self.is_warmup {
            s.append(" (warmup)");
        }
        proof {
            assert(s@ =~= self.spec_reaching_head());
        }
        s
    }

    /// Formats the record as its human-readable console line.
    pub fn format_as_console_log(&self) -> (s: String)
        ensures
            s@ == self.spec_console_log(),
    {
        if self.is_timed_out {
            proof {
                reveal_strlit(" failed: Timed out, RTT = ");
                reveal_strlit("ms");
            }
            let mut s = self.reaching_head();
            s.append(" failed: Timed out, RTT = ");
            let part = ms_two_decimals(self.round_trip_time);
            s.append(part.as_str());
            s.append("ms");
            return s;
        }

        match &self.error {
            Some(PingClientError::PreparationFailed(d)) => {
                proof {
                    reveal_strlit("Unable to perform ping to ");
                    reveal_strlit(" ");
                    reveal_strlit(" from ");
                    reveal_strlit(" (warmup)");
                    reveal_strlit(", because failing to prepare local socket: Error = ");
                }
                let mut s = String::from_str("Unable to perform ping to ");
                s.append(self.protocol.as_str());
                s.append(" ");
                let part = self.target.to_display_string();
                s.append(part.as_str());
                s.append(" from ");
                let part = self.source.to_display_string();
                s.append(part.as_str());
                if self.is_warmup {
                    s.append(" (warmup)");
                }
                s.append(", because failing to prepare local socket: Error = ");
                s.append(d.message.as_str());
                proof {
                    assert(s@ =~= self.spec_console_log());
                }
                s
            },
            Some(PingClientError::PingFailed(d)) => {
                proof {
                    reveal_strlit(" failed: ");
                }
                let mut s = self.reaching_head();
                s.append(" failed: ");
                s.append(d.message.as_str());
                proof {
                    assert(s@ =~= self.spec_console_log());
                }
                s
            },
            None => {
                proof {
                    reveal_strlit(" succeeded: RTT=");
                    reveal_strlit("ms");
                }
                let mut s = self.reaching_head();
                s.append(" succeeded: RTT=");
                let part = ms_two_decimals(self.round_trip_time);
                s.append(part.as_str());
                s.append("ms");
                proof {
                    assert(s@ =~= self.spec_console_log());
                }
                s
            },
        }
    }

    fn error_display(&self) -> (s: String)
        ensures
            s@ == self.spec_error_display(),
    {
        match &self.error {
            Some(e) => e.to_display_string(),
            None => String::new(),
        }
    }

    /// Formats the record as its one-line JSON sink record.
    pub fn format_as_json_string(&self) -> (s: String)
        ensures
            s@ == self.spec_json_record(),
    {
        proof {
            reveal_strlit("{\"utcTime\":\"");
            reveal_strlit("\",\"protocol\":\"");
            reveal_strlit("\",\"workerId\":");
            reveal_strlit(",\"targetIP\":\"");
            reveal_strlit("\",\"targetPort\":\"");
            reveal_strlit("\",\"sourceIP\":\"");
            reveal_strlit("\",\"sourcePort\":\"");
            reveal_strlit("\",\"isWarmup\":\"");
            reveal_strlit("\",\"roundTripTimeInMs\":");
            reveal_strlit(",\"isTimedOut\":\"");
            reveal_strlit("\",\"error\":\"");
            reveal_strlit("\",\"isPreparationError\":\"");
            reveal_strlit("\"}");
        }
        let mut s = String::from_str("{\"utcTime\":\"");
        let part = self.ping_time.to_iso8601_string();
        s.append(part.as_str());
        s.append("\",\"protocol\":\"");
        s.append(self.protocol.as_str());
        s.append("\",\"workerId\":");
        let part = dec_u128(self.worker_id as u128);
        s.append(part.as_str());
        s.append(",\"targetIP\":\"");
        let part = self.target.ip.to_display_string();
        s.append(part.as_str());
        s.append("\",\"targetPort\":\"");
        let part = dec_u128(self.target.port as u128);
        s.append(part.as_str());
        s.append("\",\"sourceIP\":\"");
        let part = self.source.ip.to_display_string();
        s.append(part.as_str());
        s.append("\",\"sourcePort\":\"");
        let part = dec_u128(self.source.port as u128);
        s.append(part.as_str());
        s.append("\",\"isWarmup\":\"");
        s.append(bool_str(self.is_warmup));
        s.append("\",\"roundTripTimeInMs\":");
        let part = ms_two_decimals(self.round_trip_time);
        s.append(part.as_str());
        s.append(",\"isTimedOut\":\"");
        s.append(bool_str(self.is_timed_out));
        s.append("\",\"error\":\"");
        let part = self.error_display();
        s.append(part.as_str());
        s.append("\",\"isPreparationError\":\"");
        s.append(bool_str(self.is_preparation_error()));
        s.append("\"}");
        proof {
            assert(s@ =~= self.spec_json_record());
        }
        s
    }

    /// Formats the record as its CSV sink line.
    pub fn format_as_csv_string(&self) -> (s: String)
        ensures
            s@ == self.spec_csv_record(),
    {
        proof {
            reveal_strlit(",");
            reveal_strlit(",\"");
            reveal_strlit("\",");
        }
        let mut s = self.ping_time.to_iso8601_string();
        s.append(",");
        let part = dec_u128(self.worker_id as u128);
        s.append(part.as_str());
        s.append(",");
        s.append(self.protocol.as_str());
        s.append(",");
        let part = self.target.ip.to_display_string();
        s.append(part.as_str());
        s.append(",");
        let part = dec_u128(self.target.port as u128);
        s.append(part.as_str());
        s.append(",");
        let part = self.source.ip.to_display_string();
        s.append(part.as_str());
        s.append(",");
        let part = dec_u128(self.source.port as u128);
        s.append(part.as_str());
        s.append(",");
        s.append(bool_str(self.is_warmup));
        s.append(",");
        let part = ms_two_decimals(self.round_trip_time);
        s.append(part.as_str());
        s.append(",");
        s.append(bool_str(self.is_timed_out));
        s.append(",\"");
        let part = self.error_display();
        s.append(part.as_str());
        s.append("\",");
        s.append(bool_str(self.is_preparation_error()));
        proof {
            assert(s@ =~= self.spec_csv_record());
        }
        s
    }
}

} // verus!
