//! What holds of a throughput counter, whatever happens to it.

use crate::counter::{ThroughputCounter, REPORT_INTERVAL_NANOS};
use vstd::prelude::*;

verus! {

/// One thing that happens to a counter in the course of a loop.
pub enum CounterOp {
    /// A packet went through.
    Packet,
    /// An iteration ended, with this reading of the clock if one was taken.
    Tick(Option<u64>),
}

/// The number of packets among `ops`.
pub open spec fn count_packets(ops: Seq<CounterOp>) -> nat
    decreases ops.len(),
{
    if ops.len() == 0 {
        0
    } else if ops.last() is Packet {
        count_packets(ops.drop_last()) + 1
    } else {
        count_packets(ops.drop_last())
    }
}

impl ThroughputCounter {
    /// The counter after `op`.
    pub open spec fn apply(self, op: CounterOp) -> ThroughputCounter {
        match op {
            CounterOp::Packet => self.recorded(),
            CounterOp::Tick(now) => self.ticked(now),
        }
    }

    /// The counter after all of `ops`, in their order.
    pub open spec fn run(self, ops: Seq<CounterOp>) -> ThroughputCounter
        decreases ops.len(),
    {
        if ops.len() == 0 {
            self
        } else {
            self.run(ops.drop_last()).apply(ops.last())
        }
    }

    /// The count that is reported at step `k` of `ops`, if that step reports.
    pub open spec fn report_at(self, ops: Seq<CounterOp>, k: int) -> Option<u64> {
        match ops[k] {
            CounterOp::Packet => None,
            CounterOp::Tick(now) => self.run(ops.take(k)).tick_report(now),
        }
    }

    /// The clock's reading at step `k` of `ops`; zero where none was taken.
    pub open spec fn reading_at(ops: Seq<CounterOp>, k: int) -> u64 {
        match ops[k] {
            CounterOp::Tick(Some(time)) => time,
            _ => 0,
        }
    }

    proof fn lemma_run_step(self, ops: Seq<CounterOp>, k: int)
        requires
            0 <= k < ops.len(),
        ensures
            self.run(ops.take(k + 1)) == self.run(ops.take(k)).apply(ops[k]),
    {
        assert(ops.take(k + 1).drop_last() =~= ops.take(k));
    }

    /// The time of the last report never goes back.
    proof fn lemma_last_sample_grows(self, ops: Seq<CounterOp>, from: int, to: int)
        requires
            0 <= from <= to <= ops.len(),
        ensures
            self.run(ops.take(from)).last_sample <= self.run(ops.take(to)).last_sample,
        decreases to - from,
    {
        if from < to {
            self.lemma_last_sample_grows(ops, from, to - 1);
            self.lemma_run_step(ops, to - 1);
        }
    }

    /// While nothing is reported, the count is what it was plus the packets
    /// that went through, as far as a `u64` can hold it.
    proof fn lemma_packets_between(self, ops: Seq<CounterOp>, from: int, to: int)
        requires
            0 <= from <= to <= ops.len(),
            forall|k: int| from <= k < to ==> self.report_at(ops, k) is None,
        ensures
            self.run(ops.take(to)).packets == if self.run(ops.take(from)).packets + count_packets(
                ops.subrange(from, to),
            ) <= u64::MAX {
                self.run(ops.take(from)).packets + count_packets(ops.subrange(from, to))
            } else {
                u64::MAX as int
            },
        decreases to - from,
    {
        if from < to {
            self.lemma_packets_between(ops, from, to - 1);
            self.lemma_run_step(ops, to - 1);
            assert(ops.subrange(from, to).drop_last() =~= ops.subrange(from, to - 1));
            assert(self.report_at(ops, to - 1) is None);
        }
    }

    /// A tick that reports leaves the count at zero and keeps the clock's
    /// reading as the time of the last report.
    pub proof fn law_report_resets_count(self, now: Option<u64>)
        requires
            self.tick_report(now) is Some,
        ensures
            now is Some,
            self.tick_report(now) == Some(self.packets),
            self.ticked(now).packets == 0,
            self.ticked(now).last_sample == now->0,
    {
    }

    /// A report comes only when more than a second has passed since the loop
    /// began: whatever happens to a counter, the reading at a step that
    /// reports is more than [`REPORT_INTERVAL_NANOS`] past the time the
    /// counter started with.
    pub proof fn law_first_report_waits(self, ops: Seq<CounterOp>, j: int)
        requires
            0 <= j < ops.len(),
            self.report_at(ops, j) is Some,
        ensures
            ops[j] == CounterOp::Tick(Some(Self::reading_at(ops, j))),
            Self::reading_at(ops, j) - self.last_sample > REPORT_INTERVAL_NANOS,
    {
        self.lemma_last_sample_grows(ops, 0, j);
    }

    /// No two reports come within one second: whatever happens to a counter,
    /// the readings at two steps that report lie more than
    /// [`REPORT_INTERVAL_NANOS`] apart.
    pub proof fn law_reports_a_second_apart(self, ops: Seq<CounterOp>, i: int, j: int)
        requires
            0 <= i < j < ops.len(),
            self.report_at(ops, i) is Some,
            self.report_at(ops, j) is Some,
        ensures
            ops[i] == CounterOp::Tick(Some(Self::reading_at(ops, i))),
            ops[j] == CounterOp::Tick(Some(Self::reading_at(ops, j))),
            Self::reading_at(ops, j) - Self::reading_at(ops, i) > REPORT_INTERVAL_NANOS,
    {
        self.lemma_run_step(ops, i);
        self.lemma_last_sample_grows(ops, i + 1, j);
    }

    /// A report states the packets since the report before it: where steps
    /// `i` and `j` report and no step between them does, the count reported
    /// at `j` is the number of packets between the two. The count stops at
    /// `u64::MAX`, so the law is stated for fewer packets than that.
    pub proof fn law_report_counts_packets(self, ops: Seq<CounterOp>, i: int, j: int)
        requires
            0 <= i < j < ops.len(),
            self.report_at(ops, i) is Some,
            self.report_at(ops, j) is Some,
            forall|k: int| i < k < j ==> self.report_at(ops, k) is None,
            count_packets(ops.subrange(i + 1, j)) <= u64::MAX,
        ensures
            self.report_at(ops, j) == Some(count_packets(ops.subrange(i + 1, j)) as u64),
    {
        self.lemma_run_step(ops, i);
        self.lemma_packets_between(ops, i + 1, j);
    }

    /// The first report states the packets since the loop began: where step
    /// `j` reports and no step before it does, the count reported is what the
    /// counter started with plus the number of packets before `j`. The count
    /// stops at `u64::MAX`, so the law is stated for fewer packets than that.
    pub proof fn law_first_report_counts_packets(self, ops: Seq<CounterOp>, j: int)
        requires
            0 <= j < ops.len(),
            self.report_at(ops, j) is Some,
            forall|k: int| 0 <= k < j ==> self.report_at(ops, k) is None,
            self.packets + count_packets(ops.take(j)) <= u64::MAX,
        ensures
            self.report_at(ops, j) == Some((self.packets + count_packets(ops.take(j))) as u64),
    {
        self.lemma_packets_between(ops, 0, j);
    }
}

} // verus!
