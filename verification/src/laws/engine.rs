//! What holds of every run of the engine, whatever the channel and the
//! clock do.

use crate::config::{Config, TemplateSize};
use crate::counter::REPORT_INTERVAL_NANOS;
use crate::engine::{ActionView, EngineView, EventView};
use crate::frame::{ChannelReadView, TemplatesView, MIN_FRAME_LEN};
use vstd::prelude::*;

verus! {

impl EngineView {
    /// The engine after `event`; an event that is refused leaves it as it is.
    pub open spec fn after(self, event: EventView) -> EngineView {
        match self.next(event) {
            Some((engine, _)) => engine,
            None => self,
        }
    }

    /// The engine after all of `events`, in their order.
    pub open spec fn run(self, events: Seq<EventView>) -> EngineView
        decreases events.len(),
    {
        if events.len() == 0 {
            self
        } else {
            self.run(events.drop_last()).after(events.last())
        }
    }

    /// The action that answers event `k` of `events`, if that event is
    /// accepted.
    pub open spec fn action_at(self, events: Seq<EventView>, k: int) -> Option<ActionView> {
        match self.run(events.take(k)).next(events[k]) {
            Some((_, action)) => Some(action),
            None => None,
        }
    }

    proof fn lemma_run_step(self, events: Seq<EventView>, k: int)
        requires
            0 <= k < events.len(),
        ensures
            self.run(events.take(k + 1)) == self.run(events.take(k)).after(events[k]),
    {
        assert(events.take(k + 1).drop_last() =~= events.take(k));
    }

    /// No event changes what an engine is for: it stays well formed and
    /// keeps its workload.
    pub proof fn law_step_keeps_workload(self, event: EventView)
        requires
            self.well_formed(),
        ensures
            self.after(event).well_formed(),
            self.after(event).workload == self.workload,
    {
    }

    proof fn lemma_run_keeps_workload(self, events: Seq<EventView>)
        requires
            self.well_formed(),
        ensures
            self.run(events).well_formed(),
            self.run(events).workload == self.workload,
        decreases events.len(),
    {
        if events.len() > 0 {
            self.lemma_run_keeps_workload(events.drop_last());
            self.run(events.drop_last()).law_step_keeps_workload(events.last());
        }
    }

    /// The mirror sends a valid frame back as it came and counts it once:
    /// a read of at least [`MIN_FRAME_LEN`] bytes is answered by a write of
    /// those very bytes, the count stays while the write is under way, and
    /// is one higher when the write has gone out. The count stops at
    /// `u64::MAX`, so the law is stated for a count below that.
    pub proof fn law_mirror_echoes_frame(self, frame: Seq<u8>)
        requires
            self.workload is Mirror,
            self.phase is Reading,
            frame.len() >= MIN_FRAME_LEN,
            self.counter.packets < u64::MAX,
        ensures
            self.next(EventView::ReadDone(ChannelReadView::Data(frame))) matches Some(
                (writing, action),
            ) && {
                &&& action == ActionView::Write(frame)
                &&& writing.counter == self.counter
                &&& writing.next(EventView::Written) matches Some((done, _))
                    && done.counter.packets == self.counter.packets + 1
            },
    {
    }

    /// The mirror writes nothing but what it has just read: whatever events
    /// a mirror sees, each write it asks for answers a read that delivered
    /// exactly the bytes written, at least [`MIN_FRAME_LEN`] of them.
    pub proof fn law_mirror_writes_what_it_read(
        self,
        events: Seq<EventView>,
        k: int,
        bytes: Seq<u8>,
    )
        requires
            self.well_formed(),
            self.workload is Mirror,
            0 <= k < events.len(),
            self.action_at(events, k) == Some(ActionView::Write(bytes)),
        ensures
            events[k] == EventView::ReadDone(ChannelReadView::Data(bytes)),
            bytes.len() >= MIN_FRAME_LEN,
    {
        self.lemma_run_keeps_workload(events.take(k));
    }

    /// The mirror passes over every read that delivers no valid frame: a
    /// frame below [`MIN_FRAME_LEN`] bytes, an empty channel and a failed
    /// read are answered by no write, and the count stays as it is.
    pub proof fn law_mirror_ignores_short_read(self, read: ChannelReadView)
        requires
            self.workload is Mirror,
            self.phase is Reading,
            !(read matches ChannelReadView::Data(bytes) && bytes.len() >= MIN_FRAME_LEN),
        ensures
            self.next(EventView::ReadDone(read)) matches Some((engine, action)) && {
                &&& !(action is Write)
                &&& engine.counter.packets == self.counter.packets
            },
    {
    }

    /// The generator sends its template and nothing else: whatever events
    /// an engine that was started as a generator of `size` sees, each write
    /// it asks for holds the template of that size, byte for byte, and so
    /// has the size's length.
    pub proof fn law_generator_sends_template(
        size: TemplateSize,
        templates: TemplatesView,
        events: Seq<EventView>,
        k: int,
        bytes: Seq<u8>,
    )
        requires
            templates.well_formed(),
            0 <= k < events.len(),
            Self::start(Config::Generate(size), templates).action_at(events, k) == Some(
                ActionView::Write(bytes),
            ),
        ensures
            bytes == templates.of_size(size),
            bytes.len() == size.spec_len(),
    {
        let engine = Self::start(Config::Generate(size), templates);
        engine.lemma_run_keeps_workload(events.take(k));
    }

    /// The generator never reads.
    pub proof fn law_generator_never_reads(
        size: TemplateSize,
        templates: TemplatesView,
        events: Seq<EventView>,
        k: int,
    )
        requires
            templates.well_formed(),
            0 <= k < events.len(),
        ensures
            !(Self::start(Config::Generate(size), templates).action_at(events, k) matches Some(
                ActionView::Read(_),
            )),
    {
        let engine = Self::start(Config::Generate(size), templates);
        engine.lemma_run_keeps_workload(events.take(k));
    }

    /// The clock is read on the stride only: the engine asks for a reading
    /// only in an iteration whose index is a multiple of the loop's stride.
    pub proof fn law_clock_read_on_stride(self, event: EventView)
        requires
            self.next(event) matches Some((_, ActionView::SampleClock)),
        ensures
            self.after(event).counter.iteration % self.after(event).counter.kind.spec_stride() == 0,
    {
    }

    /// Whether the answer to event `k` of `events` is a report.
    pub open spec fn reports_at(self, events: Seq<EventView>, k: int) -> bool {
        self.action_at(events, k) matches Some(ActionView::Report(_))
    }

    /// Whether event `k` of `events` tells of a write that the engine was
    /// waiting for: a packet that went out.
    pub open spec fn packet_at(self, events: Seq<EventView>, k: int) -> bool {
        events[k] is Written && self.run(events.take(k)).phase is Writing
    }

    /// The number of packets that went out at the events from `from` up to,
    /// but without, `to`.
    pub open spec fn packets_between(self, events: Seq<EventView>, from: int, to: int) -> nat
        decreases to - from,
    {
        if to <= from {
            0
        } else if self.packet_at(events, to - 1) {
            self.packets_between(events, from, to - 1) + 1
        } else {
            self.packets_between(events, from, to - 1)
        }
    }

    /// The clock's reading that event `k` of `events` brings; zero where it
    /// brings none.
    pub open spec fn reading_at(events: Seq<EventView>, k: int) -> u64 {
        match events[k] {
            EventView::Clock(now) => now,
            _ => 0,
        }
    }

    /// What one event does to the counter: a report needs a reading more
    /// than a second past the last report, and sets the count to zero; a
    /// packet adds one to the count; nothing else changes the count, and
    /// nothing sets the time of the last report back.
    proof fn lemma_step_counts(self, event: EventView)
        ensures
            self.after(event).counter.last_sample >= self.counter.last_sample,
            self.after(event).counter.kind == self.counter.kind,
            match self.next(event) {
                Some((engine, ActionView::Report(line))) => {
                    &&& event == EventView::Clock(engine.counter.last_sample)
                    &&& engine.counter.last_sample - self.counter.last_sample
                        > REPORT_INTERVAL_NANOS
                    &&& engine.counter.packets == 0
                    &&& line == self.counter.kind.report_line(self.counter.packets)
                },
                _ => self.after(event).counter.packets == if event is Written
                    && self.phase is Writing {
                    self.counter.recorded().packets
                } else {
                    self.counter.packets
                },
            },
    {
    }

    proof fn lemma_last_report_stands(self, events: Seq<EventView>, from: int, to: int)
        requires
            0 <= from <= to <= events.len(),
        ensures
            self.run(events.take(from)).counter.last_sample <= self.run(
                events.take(to),
            ).counter.last_sample,
            self.run(events.take(from)).counter.kind == self.run(events.take(to)).counter.kind,
        decreases to - from,
    {
        if from < to {
            self.lemma_last_report_stands(events, from, to - 1);
            self.lemma_run_step(events, to - 1);
            self.run(events.take(to - 1)).lemma_step_counts(events[to - 1]);
        }
    }

    proof fn lemma_count_between(self, events: Seq<EventView>, from: int, to: int)
        requires
            0 <= from <= to <= events.len(),
            forall|k: int| from <= k < to ==> !self.reports_at(events, k),
        ensures
            self.run(events.take(to)).counter.packets == if self.run(
                events.take(from),
            ).counter.packets + self.packets_between(events, from, to) <= u64::MAX {
                self.run(events.take(from)).counter.packets + self.packets_between(
                    events,
                    from,
                    to,
                )
            } else {
                u64::MAX as int
            },
        decreases to - from,
    {
        if from < to {
            self.lemma_count_between(events, from, to - 1);
            self.lemma_run_step(events, to - 1);
            self.run(events.take(to - 1)).lemma_step_counts(events[to - 1]);
            assert(!self.reports_at(events, to - 1));
        }
    }

    /// The engine prints at most one report a second: whatever events an
    /// engine sees, two of them that are answered by a report bring readings
    /// of the clock more than [`REPORT_INTERVAL_NANOS`]
    /// apart.
    pub proof fn law_reports_a_second_apart(self, events: Seq<EventView>, i: int, j: int)
        requires
            0 <= i < j < events.len(),
            self.reports_at(events, i),
            self.reports_at(events, j),
        ensures
            events[i] == EventView::Clock(Self::reading_at(events, i)),
            events[j] == EventView::Clock(Self::reading_at(events, j)),
            Self::reading_at(events, j) - Self::reading_at(events, i)
                > REPORT_INTERVAL_NANOS,
    {
        self.lemma_run_step(events, i);
        self.run(events.take(i)).lemma_step_counts(events[i]);
        self.lemma_last_report_stands(events, i + 1, j);
        self.run(events.take(j)).lemma_step_counts(events[j]);
    }

    /// A report states the packets that went out since the report before
    /// it: where events `i` and `j` are answered by reports and no event
    /// between them is, the line printed at `j` reports the number of
    /// packets that went out between the two. The count stops at `u64::MAX`,
    /// so the law is stated for fewer packets than that.
    pub proof fn law_report_counts_packets(self, events: Seq<EventView>, i: int, j: int)
        requires
            0 <= i < j < events.len(),
            self.reports_at(events, i),
            self.reports_at(events, j),
            forall|k: int| i < k < j ==> !self.reports_at(events, k),
            self.packets_between(events, i + 1, j) <= u64::MAX,
        ensures
            self.action_at(events, j) == Some(
                ActionView::Report(
                    self.counter.kind.report_line(self.packets_between(events, i + 1, j) as u64),
                ),
            ),
    {
        self.lemma_run_step(events, i);
        self.run(events.take(i)).lemma_step_counts(events[i]);
        self.lemma_count_between(events, i + 1, j);
        self.run(events.take(j)).lemma_step_counts(events[j]);
        self.lemma_last_report_stands(events, 0, j);
    }

    /// Whether the engine is past the opening of the channel and at work.
    pub open spec fn at_work(self) -> bool {
        self.phase is Reading || self.phase is Writing || self.phase is Sampling
            || self.phase is Reporting
    }

    /// Whether one of the events before position `to` tells that the channel
    /// is open.
    pub open spec fn opened_before(events: Seq<EventView>, to: int) -> bool {
        exists|j: int| 0 <= j < to && #[trigger] events[j] is Opened
    }

    proof fn lemma_work_follows_open(self, events: Seq<EventView>, to: int)
        requires
            self.phase is Created,
            0 <= to <= events.len(),
        ensures
            self.run(events.take(to)).at_work() ==> Self::opened_before(events, to),
        decreases to,
    {
        if to > 0 {
            self.lemma_work_follows_open(events, to - 1);
            self.lemma_run_step(events, to - 1);
        }
    }

    /// The channel is opened before it is used: whatever events an engine
    /// sees from its start, a read or a write is asked for only once an
    /// event has told that the channel is open.
    pub proof fn law_channel_opens_first(self, events: Seq<EventView>, k: int)
        requires
            self.phase is Created,
            0 <= k < events.len(),
            self.action_at(events, k) matches Some(action) && (action is Read || action is Write),
        ensures
            Self::opened_before(events, k + 1),
    {
        self.lemma_work_follows_open(events, k);
    }

    proof fn lemma_never_created_again(self, events: Seq<EventView>, from: int, to: int)
        requires
            0 <= from <= to <= events.len(),
            !(self.run(events.take(from)).phase is Created),
        ensures
            !(self.run(events.take(to)).phase is Created),
        decreases to - from,
    {
        if from < to {
            self.lemma_never_created_again(events, from, to - 1);
            self.lemma_run_step(events, to - 1);
        }
    }

    /// The channel is opened once: whatever events an engine sees, it asks
    /// at most once for the channel to be opened.
    pub proof fn law_channel_opens_once(self, events: Seq<EventView>, i: int, j: int)
        requires
            0 <= i < j < events.len(),
            self.action_at(events, i) matches Some(ActionView::Open(_)),
        ensures
            !(self.action_at(events, j) matches Some(ActionView::Open(_))),
    {
        self.lemma_run_step(events, i);
        self.lemma_never_created_again(events, i + 1, j);
    }

    /// Only a failure of the channel ends the run: the engine halts, and
    /// asks for the failure to be told, when the channel could not be opened
    /// or a write has failed, and on no other event.
    pub proof fn law_only_failures_halt(self, event: EventView)
        requires
            !(self.phase is Halted),
            self.next(event) matches Some((engine, action)) && (engine.phase is Halted
                || action is Fail),
        ensures
            event is OpenFailed || event is WriteFailed,
            self.next(event) matches Some((engine, action)) && engine.phase is Halted
                && action is Fail,
    {
    }

    /// A fatal error ends the run: once halted, an engine accepts no event.
    pub proof fn law_halted_accepts_nothing(self, event: EventView)
        requires
            self.phase is Halted,
        ensures
            self.next(event) is None,
    {
    }
}

} // verus!
