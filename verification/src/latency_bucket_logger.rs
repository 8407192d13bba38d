//! The latency-bucket aggregator among the result processors.
//!
//! The configured separator latencies become an array of upper bounds in
//! microseconds with an unbounded final bucket; a result falls into the first
//! bucket whose upper bound strictly exceeds its round-trip time, so an exact
//! boundary value falls into the next bucket. Timed-out and failed probes are
//! tallied apart, and the tallies always sum to the total.

use vstd::prelude::*;
use crate::ping_error::IoErrorKind;
use crate::ping_result::PingResult;
use crate::strfmt::{
    spec_ms_two_decimals, spec_dec, spec_pad_left, ms_two_decimals, dec_u128, pad_left,
};

verus! {

/// Tallies of probe results by latency bucket, with timed-out and failed
/// probes counted apart.
pub struct PingResultProcessorLatencyBucketLogger {
    pub buckets_in_us: Vec<u128>,
    pub total_hit_count: u32,
    pub bucket_hit_counts: Vec<u32>,
    pub timed_out_hit_count: u32,
    pub failed_hit_count: u32,
}

impl PingResultProcessorLatencyBucketLogger {
    /// The sum of a sequence of tallies.
    pub open spec fn spec_sum(s: Seq<u32>) -> int
        decreases s.len(),
    {
        if s.len() == 0 {
            0
        } else {
            s[0] + Self::spec_sum(s.drop_first())
        }
    }

    /// The index of the first bucket whose upper bound strictly exceeds `us`.
    pub open spec fn spec_bucket_index(buckets: Seq<u128>, us: int) -> int
        decreases buckets.len(),
    {
        if buckets.len() == 0 {
            0
        } else if us < buckets[0] {
            0
        } else {
            1 + Self::spec_bucket_index(buckets.drop_first(), us)
        }
    }

    /// The normalized bounds are well formed: one tally per bucket, at least
    /// one configured separator below the unbounded final bound, the bounds
    /// strictly increasing, and every separator small enough to display.
    pub open spec fn wf_buckets(self) -> bool {
        &&& self.bucket_hit_counts.len() == self.buckets_in_us.len()
        &&& self.buckets_in_us.len() >= 2
        &&& self.buckets_in_us[self.buckets_in_us.len() - 1] == u128::MAX
        &&& forall|i: int, j: int|
            0 <= i < j < self.buckets_in_us.len() ==> self.buckets_in_us[i] < self.buckets_in_us[j]
        &&& forall|i: int|
            0 <= i < self.buckets_in_us.len() - 1 ==> self.buckets_in_us[i] <= u64::MAX
    }

    /// The tallies are consistent: bucket, timed-out and failed counts sum to
    /// the total.
    pub open spec fn wf(self) -> bool {
        &&& self.wf_buckets()
        &&& self.total_hit_count == self.timed_out_hit_count + self.failed_hit_count
            + Self::spec_sum(self.bucket_hit_counts@)
    }

    /// The result counts as timed out: its error carries the timed-out kind,
    /// or it carries no error and the record says it timed out.
    pub open spec fn spec_counts_timed_out(r: PingResult) -> bool {
        match r.error {
            Some(e) => e.spec_kind() == IoErrorKind::TimedOut,
            None => r.is_timed_out,
        }
    }

    /// The result counts as failed: it carries an error of any other kind.
    pub open spec fn spec_counts_failed(r: PingResult) -> bool {
        r.error matches Some(e) && e.spec_kind() != IoErrorKind::TimedOut
    }

    proof fn lemma_sum_push(s: Seq<u32>, v: u32)
        ensures
            Self::spec_sum(s.push(v)) == Self::spec_sum(s) + v,
        decreases s.len(),
    {
        if s.len() == 0 {
            assert(s.push(v).drop_first() =~= Seq::<u32>::empty());
            assert(Self::spec_sum(Seq::<u32>::empty()) == 0);
            assert(s.push(v)[0] == v);
        } else {
            assert(s.push(v).drop_first() =~= s.drop_first().push(v));
            Self::lemma_sum_push(s.drop_first(), v);
            assert(s.push(v)[0] == s[0]);
        }
    }

    proof fn lemma_sum_update_incr(s: Seq<u32>, i: int)
        requires
            0 <= i < s.len(),
            s[i] < u32::MAX,
        ensures
            Self::spec_sum(s.update(i, (s[i] + 1) as u32)) == Self::spec_sum(s) + 1,
        decreases s.len(),
    {
        if i == 0 {
            assert(s.update(0, (s[0] + 1) as u32).drop_first() =~= s.drop_first());
        } else {
            assert(s.update(i, (s[i] + 1) as u32).drop_first() =~= s.drop_first().update(
                i - 1,
                (s.drop_first()[i - 1] + 1) as u32,
            ));
            Self::lemma_sum_update_incr(s.drop_first(), i - 1);
        }
    }

    proof fn lemma_sum_element_bound(s: Seq<u32>, i: int)
        requires
            0 <= i < s.len(),
        ensures
            s[i] <= Self::spec_sum(s),
        decreases s.len(),
    {
        if i > 0 {
            Self::lemma_sum_element_bound(s.drop_first(), i - 1);
        } else {
            Self::lemma_sum_nonneg(s.drop_first());
        }
    }

    proof fn lemma_sum_nonneg(s: Seq<u32>)
        ensures
            Self::spec_sum(s) >= 0,
        decreases s.len(),
    {
        if s.len() > 0 {
            Self::lemma_sum_nonneg(s.drop_first());
        }
    }

    /// The first bucket whose bound exceeds `us` exists and is exactly
    /// `spec_bucket_index`: the bound above it exceeds `us`, no bound below
    /// it does.
    proof fn lemma_bucket_index_char(buckets: Seq<u128>, us: int)
        requires
            buckets.len() >= 1,
            us < buckets[buckets.len() - 1],
        ensures
            0 <= Self::spec_bucket_index(buckets, us) < buckets.len(),
            us < buckets[Self::spec_bucket_index(buckets, us)],
            forall|j: int| 0 <= j < Self::spec_bucket_index(buckets, us) ==> us >= buckets[j],
        decreases buckets.len(),
    {
        if us < buckets[0] {
        } else {
            let rest = buckets.drop_first();
            Self::lemma_bucket_index_char(rest, us);
            let k = Self::spec_bucket_index(rest, us);
            assert(buckets[1 + k] == rest[k]);
            assert forall|j: int| 0 <= j < 1 + k implies us >= buckets[j] by {
                if j > 0 {
                    assert(rest[j - 1] == buckets[j]);
                }
            }
        }
    }

    /// Normalizes the separator latencies, given in microseconds and strictly
    /// increasing, into bucket upper bounds with an unbounded final bucket,
    /// and starts every tally at zero.
    pub fn new(separators_in_us: &Vec<u64>) -> (r: PingResultProcessorLatencyBucketLogger)
        requires
            separators_in_us.len() >= 1,
            forall|i: int, j: int|
                0 <= i < j < separators_in_us.len() ==> separators_in_us[i] < separators_in_us[j],
        ensures
            r.wf(),
            r.buckets_in_us@.len() == separators_in_us.len() + 1,
            forall|i: int|
                0 <= i < separators_in_us.len() ==> r.buckets_in_us@[i] == separators_in_us[i]
                    as u128,
            r.buckets_in_us@[separators_in_us.len() as int] == u128::MAX,
            r.total_hit_count == 0,
            r.timed_out_hit_count == 0,
            r.failed_hit_count == 0,
            forall|i: int| 0 <= i < r.bucket_hit_counts@.len() ==> r.bucket_hit_counts@[i] == 0,
    {
        let mut normalized_buckets: Vec<u128> = Vec::new();
        let mut i: usize = 0;
        while i < separators_in_us.len()
            invariant
                i <= separators_in_us.len(),
                normalized_buckets@.len() == i,
                forall|k: int|
                    0 <= k < i ==> normalized_buckets@[k] == separators_in_us@[k] as u128,
            decreases separators_in_us.len() - i,
        {
            normalized_buckets.push(separators_in_us[i] as u128);
            i = i + 1;
        }
        normalized_buckets.push(u128::MAX);

        let bucket_count = normalized_buckets.len();
        let mut bucket_hit_counts: Vec<u32> = Vec::new();
        let mut j: usize = 0;
        while j < bucket_count
            invariant
                j <= bucket_count,
                bucket_hit_counts@.len() == j,
                forall|k: int| 0 <= k < j ==> bucket_hit_counts@[k] == 0u32,
                Self::spec_sum(bucket_hit_counts@) == 0,
            decreases bucket_count - j,
        {
            proof {
                Self::lemma_sum_push(bucket_hit_counts@, 0u32);
            }
            bucket_hit_counts.push(0);
            j = j + 1;
        }

        PingResultProcessorLatencyBucketLogger {
            buckets_in_us: normalized_buckets,
            total_hit_count: 0,
            bucket_hit_counts,
            timed_out_hit_count: 0,
            failed_hit_count: 0,
        }
    }

    /// Adds one successful probe's latency to the bucket it falls into: the
    /// first bucket whose upper bound strictly exceeds it. The total is
    /// expected to have been advanced for this result already.
    #[verifier::loop_isolation(false)]
    pub fn track_latency_in_buckets(&mut self, latency_us: u64)
        requires
            old(self).wf_buckets(),
            old(self).total_hit_count == old(self).timed_out_hit_count + old(
                self,
            ).failed_hit_count + Self::spec_sum(old(self).bucket_hit_counts@) + 1,
        ensures
            final(self).wf(),
            final(self).bucket_hit_counts@ == old(self).bucket_hit_counts@.update(
                Self::spec_bucket_index(old(self).buckets_in_us@, latency_us as int),
                (old(self).bucket_hit_counts@[Self::spec_bucket_index(
                    old(self).buckets_in_us@,
                    latency_us as int,
                )] + 1) as u32,
            ),
            final(self).buckets_in_us@ == old(self).buckets_in_us@,
            final(self).total_hit_count == old(self).total_hit_count,
            final(self).timed_out_hit_count == old(self).timed_out_hit_count,
            final(self).failed_hit_count == old(self).failed_hit_count,
    {
        proof {
            Self::lemma_bucket_index_char(self.buckets_in_us@, latency_us as int);
        }
        let ghost target = Self::spec_bucket_index(self.buckets_in_us@, latency_us as int);
        let mut bucket_index: usize = 0;
        while bucket_index < self.buckets_in_us.len()
            invariant
                self == old(self),
                bucket_index <= target,
            decreases self.buckets_in_us.len() - bucket_index,
        {
            if (latency_us as u128) < self.buckets_in_us[bucket_index] {
                proof {
                    Self::lemma_sum_element_bound(self.bucket_hit_counts@, target);
                    Self::lemma_sum_update_incr(self.bucket_hit_counts@, target);
                }
                let count = self.bucket_hit_counts[bucket_index];
                self.bucket_hit_counts.set(bucket_index, count + 1);
                return ;
            }
            bucket_index = bucket_index + 1;
        }
        proof {
            assert(false);
        }
    }

    fn update_statistics(&mut self, ping_result: &PingResult)
        requires
            old(self).wf(),
            old(self).total_hit_count < u32::MAX,
        ensures
            final(self).wf(),
            final(self).buckets_in_us@ == old(self).buckets_in_us@,
            final(self).total_hit_count == old(self).total_hit_count + 1,
            final(self).timed_out_hit_count == old(self).timed_out_hit_count + (
            if Self::spec_counts_timed_out(*ping_result) {
                1int
            } else {
                0int
            }),
            final(self).failed_hit_count == old(self).failed_hit_count + (
            if Self::spec_counts_failed(*ping_result) {
                1int
            } else {
                0int
            }),
            final(self).bucket_hit_counts@ == if ping_result.spec_is_success() {
                old(self).bucket_hit_counts@.update(
                    Self::spec_bucket_index(
                        old(self).buckets_in_us@,
                        ping_result.round_trip_time as int,
                    ),
                    (old(self).bucket_hit_counts@[Self::spec_bucket_index(
                        old(self).buckets_in_us@,
                        ping_result.round_trip_time as int,
                    )] + 1) as u32,
                )
            } else {
                old(self).bucket_hit_counts@
            },
    {
        proof {
            Self::lemma_sum_nonneg(self.bucket_hit_counts@);
        }
        self.total_hit_count = self.total_hit_count + 1;

        match &ping_result.error {
            Some(e) => {
                if e.kind() == IoErrorKind::TimedOut {
                    self.timed_out_hit_count = self.timed_out_hit_count + 1;
                } else {
                    self.failed_hit_count = self.failed_hit_count + 1;
                }
            },
            None => {
                if ping_result.is_timed_out {
                    self.timed_out_hit_count = self.timed_out_hit_count + 1;
                } else {
                    self.track_latency_in_buckets(ping_result.round_trip_time);
                }
            },
        }
    }

    /// The label of bucket `i` in the final report: an upper bound for every
    /// bucket but the last, which is bounded below by the last separator.
    pub open spec fn spec_bucket_range_label(self, i: int) -> Seq<char> {
        if i < self.buckets_in_us@.len() - 1 {
            "< "@ + spec_ms_two_decimals(self.buckets_in_us@[i] as int) + "ms"@
        } else {
            ">= "@ + spec_ms_two_decimals(self.buckets_in_us@[i - 1] as int) + "ms"@
        }
    }

    /// One line of the report table: the label right-aligned to fifteen
    /// characters, then the tally.
    pub open spec fn spec_count_line(label: Seq<char>, count: int) -> Seq<char> {
        spec_pad_left(label, 15) + " | "@ + spec_dec(count)
    }

    /// The full report: a header, one line per latency bucket, and the
    /// timed-out, failed and total tallies.
    pub open spec fn spec_done_lines(self) -> Seq<Seq<char>> {
        seq![
            Seq::<char>::empty(),
            "=== Latency buckets (in milliseconds) ==="@,
            Seq::<char>::empty(),
            spec_pad_left("Latency Range"@, 15) + " | Count"@,
            "----------------+------------ "@,
        ] + Seq::new(
            self.buckets_in_us@.len(),
            |i: int|
                Self::spec_count_line(
                    self.spec_bucket_range_label(i),
                    self.bucket_hit_counts@[i] as int,
                ),
        ) + seq![
            Self::spec_count_line("Timed Out"@, self.timed_out_hit_count as int),
            Self::spec_count_line("Failed"@, self.failed_hit_count as int),
            "----------------+------------ "@,
            Self::spec_count_line("Total"@, self.total_hit_count as int),
        ]
    }

    fn count_line(label: &str, count: u32) -> (r: String)
        ensures
            r@ == Self::spec_count_line(label@, count as int),
    {
        proof {
            reveal_strlit(" | ");
        }
        let mut r = pad_left(label, 15);
        r.append(" | ");
        let part = dec_u128(count as u128);
        r.append(part.as_str());
        r
    }

    /// Renders the report the run prints once the result stream closes.
    #[verifier::loop_isolation(false)]
    pub fn done(&self) -> (r: Vec<String>)
        requires
            self.wf_buckets(),
        ensures
            r@.len() == self.spec_done_lines().len(),
            forall|i: int| 0 <= i < r@.len() ==> r@[i]@ == self.spec_done_lines()[i],
    {
        proof {
            reveal_strlit("=== Latency buckets (in milliseconds) ===");
            reveal_strlit("Latency Range");
            reveal_strlit(" | Count");
            reveal_strlit("----------------+------------ ");
            reveal_strlit("< ");
            reveal_strlit(">= ");
            reveal_strlit("ms");
            reveal_strlit("Timed Out");
            reveal_strlit("Failed");
            reveal_strlit("Total");
        }
        let ghost goal = self.spec_done_lines();
        let mut lines: Vec<String> = Vec::new();
        lines.push(String::new());
        lines.push(String::from_str("=== Latency buckets (in milliseconds) ==="));
        lines.push(String::new());
        let mut header = pad_left("Latency Range", 15);
        header.append(" | Count");
        lines.push(header);
        lines.push(String::from_str("----------------+------------ "));
        proof {
            assert(forall|j: int| 0 <= j < 5 ==> lines@[j]@ == goal[j]);
        }

        let bucket_count = self.buckets_in_us.len();
        let mut i: usize = 0;
        while i < bucket_count
            invariant
                i <= bucket_count,
                lines@.len() == 5 + i,
                forall|j: int| 0 <= j < 5 + i ==> lines@[j]@ == goal[j],
            decreases bucket_count - i,
        {
            let label = if i < bucket_count - 1 {
                let mut label = String::from_str("< ");
                let part = ms_two_decimals(self.buckets_in_us[i] as u64);
                label.append(part.as_str());
                label.append("ms");
                label
            } else {
                let mut label = String::from_str(">= ");
                let part = ms_two_decimals(self.buckets_in_us[i - 1] as u64);
                label.append(part.as_str());
                label.append("ms");
                label
            };
            proof {
                assert(label@ == self.spec_bucket_range_label(i as int));
            }
            let line = Self::count_line(label.as_str(), self.bucket_hit_counts[i]);
            lines.push(line);
            i = i + 1;
        }

        lines.push(Self::count_line("Timed Out", self.timed_out_hit_count));
        lines.push(Self::count_line("Failed", self.failed_hit_count));
        lines.push(String::from_str("----------------+------------ "));
        lines.push(Self::count_line("Total", self.total_hit_count));
        proof {
            assert(forall|j: int| 0 <= j < lines@.len() ==> lines@[j]@ == goal[j]);
        }
        lines
    }

    /// Feeds one emitted result into the tallies.
    pub fn process(&mut self, ping_result: &PingResult)
        requires
            old(self).wf(),
            old(self).total_hit_count < u32::MAX,
        ensures
            final(self).wf(),
            final(self).buckets_in_us@ == old(self).buckets_in_us@,
            final(self).total_hit_count == old(self).total_hit_count + 1,
            final(self).timed_out_hit_count == old(self).timed_out_hit_count + (
            if Self::spec_counts_timed_out(*ping_result) {
                1int
            } else {
                0int
            }),
            final(self).failed_hit_count == old(self).failed_hit_count + (
            if Self::spec_counts_failed(*ping_result) {
                1int
            } else {
                0int
            }),
            final(self).bucket_hit_counts@ == if ping_result.spec_is_success() {
                old(self).bucket_hit_counts@.update(
                    Self::spec_bucket_index(
                        old(self).buckets_in_us@,
                        ping_result.round_trip_time as int,
                    ),
                    (old(self).bucket_hit_counts@[Self::spec_bucket_index(
                        old(self).buckets_in_us@,
                        ping_result.round_trip_time as int,
                    )] + 1) as u32,
                )
            } else {
                old(self).bucket_hit_counts@
            },
    {
        self.update_statistics(ping_result);
    }
}

} // verus!
