//! The throughput counter: it counts packets, looks at the clock on a fixed
//! stride of iterations, and hands out one report for each full second.

use crate::text::{decimal_text, render_decimal};
use vstd::prelude::*;
use vstd::string::*;

verus! {

/// The time that must have passed before the next report, in nanoseconds.
pub const REPORT_INTERVAL_NANOS: u64 = 1_000_000_000;

/// The mirror loop looks at the clock on every iteration that this divides.
/// A tuning value: large, since the mirror spins through many iterations
/// that move no frame.
pub const MIRROR_STRIDE: u64 = 4096;

/// The generator loop looks at the clock on every iteration that this divides.
/// A tuning value: smaller than the mirror's, since every iteration of the
/// generator writes a frame.
pub const GENERATE_STRIDE: u64 = 16;

/// Which of the two loops a counter serves.
#[derive(Clone, Copy, Debug, PartialEq, Eq, Structural)]
pub enum LoopKind {
    /// Frames are read and sent back.
    Mirror,
    /// Frames are made up and sent.
    Generate,
}

impl LoopKind {
    /// The number of iterations from one look at the clock to the next.
    pub open spec fn spec_stride(self) -> u64 {
        match self {
            LoopKind::Mirror => MIRROR_STRIDE,
            LoopKind::Generate => GENERATE_STRIDE,
        }
    }

    /// The number of iterations from one look at the clock to the next.
    #[verifier::when_used_as_spec(spec_stride)]
    pub fn stride(self) -> (stride: u64)
        ensures
            stride == self.spec_stride(),
            stride > 0,
    {
        match self {
            LoopKind::Mirror => MIRROR_STRIDE,
            LoopKind::Generate => GENERATE_STRIDE,
        }
    }

    /// How a report of this loop begins.
    pub open spec fn report_prefix(self) -> Seq<char> {
        match self {
            LoopKind::Mirror => "Forwarded packets: "@,
            LoopKind::Generate => "Sent packets: "@,
        }
    }

    /// The report of `count` packets in one interval: the prefix, the count
    /// in decimal notation, and `/s`.
    pub open spec fn report_line(self, count: u64) -> Seq<char> {
        self.report_prefix() + decimal_text(count as nat) + "/s"@
    }

    /// Writes the report of `count` packets in one interval.
    pub fn render_report(self, count: u64) -> (line: String)
        ensures
            line@ == self.report_line(count),
    {
        let mut line = match self {
            LoopKind::Mirror => "Forwarded packets: ".to_owned(),
            LoopKind::Generate => "Sent packets: ".to_owned(),
        };
        let digits = render_decimal(count);
        line.append(digits.as_str());
        line.append("/s");
        line
    }
}

/// The state that a loop threads through its iterations: the packets counted
/// since the last report, the time of that report, and the iteration's index.
/// Times are nanoseconds on a monotonic clock that stood at zero when the
/// loop began.
#[derive(Clone, Copy, Debug, PartialEq, Eq, Structural)]
pub struct ThroughputCounter {
    /// The loop that is counted.
    pub kind: LoopKind,
    /// Packets since the last report; it stops at `u64::MAX`.
    pub packets: u64,
    /// When the count was last reported, or zero before the first report.
    pub last_sample: u64,
    /// The index of the current iteration; after `u64::MAX` comes zero.
    pub iteration: u64,
}

impl ThroughputCounter {
    /// The counter at the start of a loop.
    pub open spec fn spec_new(kind: LoopKind) -> ThroughputCounter {
        ThroughputCounter { kind, packets: 0, last_sample: 0, iteration: 0 }
    }

    /// The counter after one more packet.
    pub open spec fn recorded(self) -> ThroughputCounter {
        ThroughputCounter {
            packets: if self.packets < u64::MAX {
                (self.packets + 1) as u64
            } else {
                self.packets
            },
            ..self
        }
    }

    /// Whether the current iteration is one that looks at the clock.
    pub open spec fn spec_sample_due(&self) -> bool {
        self.iteration % self.kind.spec_stride() == 0
    }

    /// The time from the last report to `now`; zero where the clock reads
    /// less than it did then.
    pub open spec fn elapsed(self, now: u64) -> int {
        if now >= self.last_sample {
            now - self.last_sample
        } else {
            0
        }
    }

    /// The count that a tick with the clock reading `now` reports. There is a
    /// report where the iteration looks at the clock, a reading is there, and
    /// more than [`REPORT_INTERVAL_NANOS`] have passed since the last one.
    pub open spec fn tick_report(self, now: Option<u64>) -> Option<u64> {
        match now {
            Some(time) => if self.spec_sample_due() && self.elapsed(time) > REPORT_INTERVAL_NANOS {
                Some(self.packets)
            } else {
                None
            },
            None => None,
        }
    }

    /// The index after `self.iteration`.
    pub open spec fn next_iteration(self) -> u64 {
        if self.iteration < u64::MAX {
            (self.iteration + 1) as u64
        } else {
            0
        }
    }

    /// The counter after a tick with the clock reading `now`: the iteration
    /// has moved on, and where the tick reports, the count is back at zero
    /// and the time of the last report is `now`.
    pub open spec fn ticked(self, now: Option<u64>) -> ThroughputCounter {
        match (self.tick_report(now), now) {
            (Some(_), Some(time)) => ThroughputCounter {
                packets: 0,
                last_sample: time,
                iteration: self.next_iteration(),
                ..self
            },
            _ => ThroughputCounter { iteration: self.next_iteration(), ..self },
        }
    }

    /// A counter for a loop that begins now.
    #[verifier::when_used_as_spec(spec_new)]
    pub fn new(kind: LoopKind) -> (counter: ThroughputCounter)
        ensures
            counter == Self::spec_new(kind),
    {
        ThroughputCounter { kind, packets: 0, last_sample: 0, iteration: 0 }
    }

    /// Counts one packet.
    pub fn record_packet(&mut self)
        ensures
            *final(self) == old(self).recorded(),
    {
        if self.packets < u64::MAX {
            self.packets = self.packets + 1;
        }
    }

    /// Whether the current iteration is one that looks at the clock: its
    /// index is a multiple of the loop's stride.
    #[verifier::when_used_as_spec(spec_sample_due)]
    pub fn sample_due(&self) -> (due: bool)
        ensures
            due == self.spec_sample_due(),
    {
        self.iteration % self.kind.stride() == 0
    }

    /// Ends the current iteration. `now` is the clock's reading, taken where
    /// [`sample_due`](Self::sample_due) asked for it. The result is the
    /// count to report, if a report is due.
    pub fn tick(&mut self, now: Option<u64>) -> (report: Option<u64>)
        ensures
            report == old(self).tick_report(now),
            *final(self) == old(self).ticked(now),
    {
        let due = self.sample_due();
        let next = if self.iteration < u64::MAX {
            self.iteration + 1
        } else {
            0
        };
        self.iteration = next;
        match now {
            Some(time) => {
                if due && time >= self.last_sample && time - self.last_sample
                    > REPORT_INTERVAL_NANOS {
                    let count = self.packets;
                    self.packets = 0;
                    self.last_sample = time;
                    Some(count)
                } else {
                    None
                }
            },
            None => None,
        }
    }
}

} // verus!
