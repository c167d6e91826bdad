//! The engine: one state machine for both loops. A driver hands it what
//! happened on the channel and the clock, and does what it answers.

use crate::config::Config;
use crate::counter::{LoopKind, ThroughputCounter};
use crate::error::{FatalError, FatalErrorView, SetupError, CHANNEL_PATH};
use crate::frame::{
    is_template_len, ChannelRead, ChannelReadView, ReadOutcome, ReadOutcomeView, TemplateFrame,
    Templates, TemplatesView, MAX_FRAME_LEN,
};
use vstd::prelude::*;

verus! {

/// How the channel is to be opened.
#[derive(Debug, PartialEq, Eq)]
pub struct OpenRequest {
    /// The path of the driver's raw interface.
    pub path: String,
    /// Whether the channel is opened for reading and writing.
    pub read_write: bool,
    /// Whether a read with nothing to read returns at once.
    pub non_blocking: bool,
}

/// The mathematical content of an [`OpenRequest`].
pub struct OpenRequestView {
    pub path: Seq<char>,
    pub read_write: bool,
    pub non_blocking: bool,
}

impl View for OpenRequest {
    type V = OpenRequestView;

    open spec fn view(&self) -> OpenRequestView {
        OpenRequestView {
            path: self.path@,
            read_write: self.read_write,
            non_blocking: self.non_blocking,
        }
    }
}

/// The one way the channel is opened: the driver's path, for reading and
/// writing, without waiting.
pub open spec fn channel_request() -> OpenRequestView {
    OpenRequestView { path: CHANNEL_PATH@, read_write: true, non_blocking: true }
}

/// What the driver reports to the engine.
#[derive(Debug, PartialEq, Eq)]
pub enum Event {
    /// The program has started.
    Start,
    /// The channel is open.
    Opened,
    /// The channel could not be opened.
    OpenFailed,
    /// A read of the channel has returned.
    ReadDone(ChannelRead),
    /// All bytes of a write have gone out.
    Written,
    /// A write has failed; the text is the channel's account of it.
    WriteFailed(String),
    /// The clock reads this many nanoseconds since the channel was opened.
    Clock(u64),
    /// A report has been printed.
    Reported,
}

/// The mathematical content of an [`Event`].
pub enum EventView {
    Start,
    Opened,
    OpenFailed,
    ReadDone(ChannelReadView),
    Written,
    WriteFailed(Seq<char>),
    Clock(u64),
    Reported,
}

impl View for Event {
    type V = EventView;

    open spec fn view(&self) -> EventView {
        match self {
            Event::Start => EventView::Start,
            Event::Opened => EventView::Opened,
            Event::OpenFailed => EventView::OpenFailed,
            Event::ReadDone(read) => EventView::ReadDone(read@),
            Event::Written => EventView::Written,
            Event::WriteFailed(detail) => EventView::WriteFailed(detail@),
            Event::Clock(now) => EventView::Clock(*now),
            Event::Reported => EventView::Reported,
        }
    }
}

/// What the engine asks of the driver. Each is answered by one event.
#[derive(Debug, PartialEq, Eq)]
pub enum Action {
    /// Open the channel; answered by `Opened` or `OpenFailed`.
    Open(OpenRequest),
    /// Read once, at most this many bytes; answered by `ReadDone`.
    Read(usize),
    /// Write all of these bytes; answered by `Written` or `WriteFailed`.
    Write(Vec<u8>),
    /// Read the clock; answered by `Clock`.
    SampleClock,
    /// Print this line; answered by `Reported`.
    Report(String),
    /// Tell the user and leave with a failure. Nothing answers it.
    Fail(FatalError),
}

/// The mathematical content of an [`Action`].
pub enum ActionView {
    Open(OpenRequestView),
    Read(usize),
    Write(Seq<u8>),
    SampleClock,
    Report(Seq<char>),
    Fail(FatalErrorView),
}

impl View for Action {
    type V = ActionView;

    open spec fn view(&self) -> ActionView {
        match self {
            Action::Open(request) => ActionView::Open(request@),
            Action::Read(limit) => ActionView::Read(*limit),
            Action::Write(bytes) => ActionView::Write(bytes@),
            Action::SampleClock => ActionView::SampleClock,
            Action::Report(line) => ActionView::Report(line@),
            Action::Fail(error) => ActionView::Fail(error@),
        }
    }
}

/// What the engine is waiting for.
#[derive(Clone, Copy, Debug, PartialEq, Eq, Structural)]
pub enum Phase {
    /// For the program to start.
    Created,
    /// For the channel to open.
    Opening,
    /// For a read to return.
    Reading,
    /// For a write to go out.
    Writing,
    /// For the clock's reading.
    Sampling,
    /// For a report to be printed.
    Reporting,
    /// For nothing: a fatal error has ended the run.
    Halted,
}

/// What the engine does with the channel.
#[derive(Debug, PartialEq, Eq)]
pub enum Workload {
    /// It sends back what it reads.
    Mirror,
    /// It sends this frame, again and again.
    Generate(TemplateFrame),
}

/// The mathematical content of a [`Workload`].
pub enum WorkloadView {
    Mirror,
    Generate(Seq<u8>),
}

impl View for Workload {
    type V = WorkloadView;

    open spec fn view(&self) -> WorkloadView {
        match self {
            Workload::Mirror => WorkloadView::Mirror,
            Workload::Generate(frame) => WorkloadView::Generate(frame@),
        }
    }
}

impl WorkloadView {
    /// The loop that carries the workload out.
    pub open spec fn kind(self) -> LoopKind {
        match self {
            WorkloadView::Mirror => LoopKind::Mirror,
            WorkloadView::Generate(_) => LoopKind::Generate,
        }
    }

    /// The workload that a configuration selects, with the templates at hand.
    pub open spec fn select(config: Config, templates: TemplatesView) -> WorkloadView {
        match config {
            Config::Mirror => WorkloadView::Mirror,
            Config::Generate(size) => WorkloadView::Generate(templates.of_size(size)),
        }
    }
}

/// The engine as a mathematical value.
pub struct EngineView {
    pub workload: WorkloadView,
    pub phase: Phase,
    pub counter: ThroughputCounter,
}

impl EngineView {
    /// What holds of every engine: the counter serves the engine's loop, a
    /// template has one of the two lengths, and only the mirror reads.
    pub open spec fn well_formed(self) -> bool {
        &&& self.counter.kind == self.workload.kind()
        &&& self.workload matches WorkloadView::Generate(frame) ==> is_template_len(frame.len())
        &&& self.phase is Reading ==> self.workload is Mirror
    }

    /// The engine before the program has started.
    pub open spec fn start(config: Config, templates: TemplatesView) -> EngineView {
        let workload = WorkloadView::select(config, templates);
        EngineView {
            workload,
            phase: Phase::Created,
            counter: ThroughputCounter::spec_new(workload.kind()),
        }
    }

    /// The engine in another phase.
    pub open spec fn in_phase(self, phase: Phase) -> EngineView {
        EngineView { phase, ..self }
    }

    /// The step that begins an iteration: the mirror reads, the generator
    /// writes its template.
    pub open spec fn begin_iteration(self) -> (EngineView, ActionView) {
        match self.workload {
            WorkloadView::Mirror => (
                self.in_phase(Phase::Reading),
                ActionView::Read(MAX_FRAME_LEN),
            ),
            WorkloadView::Generate(frame) => (
                self.in_phase(Phase::Writing),
                ActionView::Write(frame),
            ),
        }
    }

    /// The step after an iteration's work on the channel: where the
    /// iteration looks at the clock, the clock is read; where it does not,
    /// the counter ticks without a reading and the next iteration begins.
    pub open spec fn end_iteration(self) -> (EngineView, ActionView) {
        if self.counter.spec_sample_due() {
            (self.in_phase(Phase::Sampling), ActionView::SampleClock)
        } else {
            (EngineView { counter: self.counter.ticked(None), ..self }).begin_iteration()
        }
    }

    /// The engine after a fatal error, and the action that reports it.
    pub open spec fn fail(self, error: FatalErrorView) -> (EngineView, ActionView) {
        (self.in_phase(Phase::Halted), ActionView::Fail(error))
    }

    /// The engine's answer to an event: the engine it becomes and the action
    /// it asks for, or `None` where the event is not one that the engine's
    /// phase waits for.
    pub open spec fn next(self, event: EventView) -> Option<(EngineView, ActionView)> {
        match (self.phase, event) {
            (Phase::Created, EventView::Start) => Some(
                (self.in_phase(Phase::Opening), ActionView::Open(channel_request())),
            ),
            (Phase::Opening, EventView::Opened) => Some(self.begin_iteration()),
            (Phase::Opening, EventView::OpenFailed) => Some(
                self.fail(FatalErrorView::Setup(SetupError::ChannelOpenFailed)),
            ),
            (Phase::Reading, EventView::ReadDone(read)) => match read.classify() {
                ReadOutcomeView::Delivered(bytes) => Some(
                    (self.in_phase(Phase::Writing), ActionView::Write(bytes)),
                ),
                _ => Some(self.end_iteration()),
            },
            (Phase::Writing, EventView::Written) => Some(
                (EngineView { counter: self.counter.recorded(), ..self }).end_iteration(),
            ),
            (Phase::Writing, EventView::WriteFailed(detail)) => Some(
                self.fail(FatalErrorView::WriteFailed(detail)),
            ),
            (Phase::Sampling, EventView::Clock(now)) => {
                let ticked = EngineView { counter: self.counter.ticked(Some(now)), ..self };
                match self.counter.tick_report(Some(now)) {
                    Some(count) => Some(
                        (
                            ticked.in_phase(Phase::Reporting),
                            ActionView::Report(self.counter.kind.report_line(count)),
                        ),
                    ),
                    None => Some(ticked.begin_iteration()),
                }
            },
            (Phase::Reporting, EventView::Reported) => Some(self.begin_iteration()),
            _ => None,
        }
    }
}

/// The state machine that runs one loop over the channel.
#[derive(Debug, PartialEq, Eq)]
pub struct Engine {
    workload: Workload,
    phase: Phase,
    counter: ThroughputCounter,
}

impl View for Engine {
    type V = EngineView;

    closed spec fn view(&self) -> EngineView {
        EngineView { workload: self.workload@, phase: self.phase, counter: self.counter }
    }
}

impl Engine {
    #[verifier::type_invariant]
    spec fn well_formed(self) -> bool {
        self@.well_formed()
    }

    /// Selects the loop that `config` asks for and readies an engine for it.
    /// The generator gets the template of the configured size.
    pub fn new(config: Config, templates: Templates) -> (engine: Engine)
        ensures
            engine@ == EngineView::start(config, templates@),
            engine@.well_formed(),
    {
        match config {
            Config::Mirror => Engine {
                workload: Workload::Mirror,
                phase: Phase::Created,
                counter: ThroughputCounter::new(LoopKind::Mirror),
            },
            Config::Generate(size) => {
                let frame = templates.take(size);
                Engine {
                    workload: Workload::Generate(frame),
                    phase: Phase::Created,
                    counter: ThroughputCounter::new(LoopKind::Generate),
                }
            },
        }
    }

    fn begin_iteration(&mut self) -> (action: Action)
        ensures
            (final(self)@, action@) == old(self)@.begin_iteration(),
    {
        proof {
            use_type_invariant(&*self);
        }
        let template = match &self.workload {
            Workload::Mirror => None,
            Workload::Generate(frame) => Some(frame.to_bytes()),
        };
        match template {
            None => {
                self.phase = Phase::Reading;
                Action::Read(MAX_FRAME_LEN)
            },
            Some(bytes) => {
                self.phase = Phase::Writing;
                Action::Write(bytes)
            },
        }
    }

    fn end_iteration(&mut self) -> (action: Action)
        ensures
            (final(self)@, action@) == old(self)@.end_iteration(),
    {
        proof {
            use_type_invariant(&*self);
        }
        if self.counter.sample_due() {
            self.phase = Phase::Sampling;
            Action::SampleClock
        } else {
            let mut counter = self.counter;
            counter.tick(None);
            self.counter = counter;
            self.begin_iteration()
        }
    }

    fn fail(&mut self, error: FatalError) -> (action: Action)
        ensures
            (final(self)@, action@) == old(self)@.fail(error@),
    {
        proof {
            use_type_invariant(&*self);
        }
        self.phase = Phase::Halted;
        Action::Fail(error)
    }

    /// Takes `event` and answers with the next action. An event that the
    /// engine's phase does not wait for is refused: the answer is `None` and
    /// the engine stays as it was.
    pub fn step(&mut self, event: Event) -> (action: Option<Action>)
        ensures
            match old(self)@.next(event@) {
                Some((engine, asked)) => {
                    &&& final(self)@ == engine
                    &&& action matches Some(given)
                    &&& given@ == asked
                },
                None => final(self)@ == old(self)@ && action is None,
            },
            final(self)@.well_formed(),
    {
        proof {
            use_type_invariant(&*self);
        }
        match (self.phase, event) {
            (Phase::Created, Event::Start) => {
                self.phase = Phase::Opening;
                Some(
                    Action::Open(
                        OpenRequest {
                            path: CHANNEL_PATH.to_owned(),
                            read_write: true,
                            non_blocking: true,
                        },
                    ),
                )
            },
            (Phase::Opening, Event::Opened) => Some(self.begin_iteration()),
            (Phase::Opening, Event::OpenFailed) => Some(
                self.fail(FatalError::Setup(SetupError::ChannelOpenFailed)),
            ),
            (Phase::Reading, Event::ReadDone(read)) => match read.classify() {
                ReadOutcome::Delivered(bytes) => {
                    self.phase = Phase::Writing;
                    Some(Action::Write(bytes))
                },
                _ => Some(self.end_iteration()),
            },
            (Phase::Writing, Event::Written) => {
                let mut counter = self.counter;
                counter.record_packet();
                self.counter = counter;
                Some(self.end_iteration())
            },
            (Phase::Writing, Event::WriteFailed(detail)) => Some(
                self.fail(FatalError::WriteFailed(detail)),
            ),
            (Phase::Sampling, Event::Clock(now)) => {
                let mut counter = self.counter;
                let report = counter.tick(Some(now));
                self.counter = counter;
                match report {
                    Some(count) => {
                        self.phase = Phase::Reporting;
                        Some(Action::Report(counter.kind.render_report(count)))
                    },
                    None => Some(self.begin_iteration()),
                }
            },
            (Phase::Reporting, Event::Reported) => Some(self.begin_iteration()),
            _ => None,
        }
    }

    /// What the engine is waiting for.
    pub fn phase(&self) -> (phase: Phase)
        ensures
            phase == self@.phase,
    {
        self.phase
    }

    /// The engine's counter as it stands.
    pub fn counter(&self) -> (counter: ThroughputCounter)
        ensures
            counter == self@.counter,
    {
        self.counter
    }
}

} // verus!
