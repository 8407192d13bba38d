//! The coordinated source-port generator.
//!
//! One picker is shared by all workers; each call to `next` hands out the
//! next `(source_port, is_warmup)` pair. The first `warmup` picks carry the
//! warmup flag, ports advance cyclically through the inclusive range, and a
//! bounded run ends with `None` forever once the budget is spent.

use vstd::prelude::*;

verus! {

/// Generator state: the cursor into the port range, the warmup probes still
/// to issue, and the probes left in the run (`None` means unbounded).
#[derive(Clone, Copy, PartialEq, Eq, Structural, Debug)]
pub struct PingPortPicker {
    pub min_port: u16,
    pub max_port: u16,
    pub next_port: u16,
    pub remaining_warmup: u64,
    pub remaining_total: Option<u64>,
}

impl PingPortPicker {
    /// The cursor lies inside the inclusive range.
    pub open spec fn wf(self) -> bool {
        &&& self.min_port <= self.max_port
        &&& self.min_port <= self.next_port <= self.max_port
    }

    /// The budget is spent: every further call returns `None`.
    pub open spec fn spec_exhausted(self) -> bool {
        self.remaining_total == Some(0u64)
    }

    /// The port after `p` in the cyclic range order.
    pub open spec fn spec_wrap(self, p: u16) -> u16 {
        if p == self.max_port {
            self.min_port
        } else {
            (p + 1) as u16
        }
    }

    /// The state after one successful pick.
    pub open spec fn spec_step(self) -> PingPortPicker {
        PingPortPicker {
            next_port: self.spec_wrap(self.next_port),
            remaining_warmup: if self.remaining_warmup > 0 {
                (self.remaining_warmup - 1) as u64
            } else {
                0u64
            },
            remaining_total: match self.remaining_total {
                Some(t) => Some((t - 1) as u64),
                None => None,
            },
            ..self
        }
    }

    pub fn new(min_port: u16, max_port: u16, warmup_count: u64, total_count: Option<u64>) -> (r:
        PingPortPicker)
        requires
            min_port <= max_port,
        ensures
            r == (PingPortPicker {
                min_port,
                max_port,
                next_port: min_port,
                remaining_warmup: warmup_count,
                remaining_total: total_count,
            }),
            r.wf(),
    {
        PingPortPicker {
            min_port,
            max_port,
            next_port: min_port,
            remaining_warmup: warmup_count,
            remaining_total: total_count,
        }
    }

    /// Hands out the next `(source_port, is_warmup)` pair, or `None` once the
    /// budget is spent. A spent picker is left unchanged, so it stays spent.
    pub fn next(&mut self) -> (r: Option<(u16, bool)>)
        requires
            old(self).wf(),
        ensures
            final(self).wf(),
            old(self).spec_exhausted() ==> r is None && *final(self) == *old(self),
            !old(self).spec_exhausted() ==> r == Some(
                (old(self).next_port, old(self).remaining_warmup > 0),
            ) && *final(self) == old(self).spec_step(),
    {
        let budget = self.remaining_total;
        match budget {
            Some(t) => {
                if t == 0 {
                    return None;
                }
                self.remaining_total = Some(t - 1);
            },
            None => {},
        }
        let port = self.next_port;
        let is_warmup = self.remaining_warmup > 0;
        if self.remaining_warmup > 0 {
            self.remaining_warmup = self.remaining_warmup - 1;
        }
        self.next_port = if self.next_port == self.max_port {
            self.min_port
        } else {
            self.next_port + 1
        };
        Some((port, is_warmup))
    }

    /// The sequence of pairs that `n` calls to `next` produce from this
    /// state: picks stop early once the budget is spent.
    pub open spec fn spec_picks(self, n: nat) -> Seq<(u16, bool)>
        decreases n,
    {
        if n == 0 || self.spec_exhausted() {
            Seq::<(u16, bool)>::empty()
        } else {
            seq![(self.next_port, self.remaining_warmup > 0)] + self.spec_step().spec_picks(
                (n - 1) as nat,
            )
        }
    }

    /// The number of warmup-flagged pairs in a pick sequence.
    pub open spec fn spec_warmup_count(ps: Seq<(u16, bool)>) -> nat
        decreases ps.len(),
    {
        if ps.len() == 0 {
            0
        } else {
            (if ps[0].1 {
                1nat
            } else {
                0nat
            }) + Self::spec_warmup_count(ps.drop_first())
        }
    }

    /// A bounded run of `n` calls produces `min(n, remaining_total)` pairs;
    /// an unbounded run produces one pair per call.
    pub proof fn lemma_picks_len(self, n: nat)
        ensures
            match self.remaining_total {
                Some(t) => self.spec_picks(n).len() == if n <= t {
                    n
                } else {
                    t as nat
                },
                None => self.spec_picks(n).len() == n,
            },
        decreases n,
    {
        if n == 0 || self.spec_exhausted() {
        } else {
            self.spec_step().lemma_picks_len((n - 1) as nat);
        }
    }

    /// The warmup flags form a prefix: the `i`-th pick is a warmup probe
    /// exactly when `i < remaining_warmup`.
    pub proof fn lemma_picks_warmup_prefix(self, n: nat)
        ensures
            forall|i: int|
                0 <= i < self.spec_picks(n).len() ==> (#[trigger] self.spec_picks(n)[i].1 <==> i
                    < self.remaining_warmup),
        decreases n,
    {
        if n == 0 || self.spec_exhausted() {
        } else {
            let ps = self.spec_picks(n);
            let rest = self.spec_step().spec_picks((n - 1) as nat);
            self.spec_step().lemma_picks_warmup_prefix((n - 1) as nat);
            assert forall|i: int| 0 <= i < ps.len() implies (#[trigger] ps[i].1 <==> i
                < self.remaining_warmup) by {
                if i > 0 {
                    assert(ps[i] == rest[i - 1]);
                }
            }
        }
    }

    /// The number of warmup pairs among the picks is the smaller of the pick
    /// count and the warmup budget.
    pub proof fn lemma_picks_warmup_total(self, n: nat)
        ensures
            Self::spec_warmup_count(self.spec_picks(n)) == if self.spec_picks(n).len()
                <= self.remaining_warmup {
                self.spec_picks(n).len()
            } else {
                self.remaining_warmup as nat
            },
        decreases n,
    {
        if n == 0 || self.spec_exhausted() {
        } else {
            let ps = self.spec_picks(n);
            let rest = self.spec_step().spec_picks((n - 1) as nat);
            self.spec_step().lemma_picks_warmup_total((n - 1) as nat);
            assert(ps.drop_first() =~= rest);
        }
    }

    /// The first pick carries the cursor port.
    pub proof fn lemma_picks_head(self, n: nat)
        requires
            self.spec_picks(n).len() > 0,
        ensures
            self.spec_picks(n)[0].0 == self.next_port,
    {
    }

    /// Successive picked ports walk the range cyclically: each port is the
    /// wrap-around successor of the one before it.
    pub proof fn lemma_picks_ports_cyclic(self, n: nat)
        ensures
            forall|i: int|
                0 <= i && i + 1 < self.spec_picks(n).len() ==> #[trigger] self.spec_picks(n)[i
                    + 1].0 == self.spec_wrap(self.spec_picks(n)[i].0),
        decreases n,
    {
        if n == 0 || self.spec_exhausted() {
        } else {
            let ps = self.spec_picks(n);
            let stepped = self.spec_step();
            let rest = stepped.spec_picks((n - 1) as nat);
            stepped.lemma_picks_ports_cyclic((n - 1) as nat);
            assert forall|i: int| 0 <= i && i + 1 < ps.len() implies #[trigger] ps[i + 1].0
                == self.spec_wrap(ps[i].0) by {
                if i == 0 {
                    stepped.lemma_picks_head((n - 1) as nat);
                    assert(ps[0].0 == self.next_port);
                    assert(ps[1] == rest[0]);
                } else {
                    assert(ps[i] == rest[i - 1]);
                    assert(ps[i + 1] == rest[i]);
                    assert(rest[(i - 1) + 1].0 == stepped.spec_wrap(rest[i - 1].0));
                    assert(stepped.spec_wrap(ps[i].0) == self.spec_wrap(ps[i].0));
                }
            }
        }
    }
}

} // verus!
