use rheinfall::config::{Config, TemplateSize};
use rheinfall::counter::{LoopKind, ThroughputCounter};
use rheinfall::engine::{Action, Engine, Event, OpenRequest, Phase};
use rheinfall::error::{FatalError, SetupError};
use rheinfall::frame::{ChannelRead, TemplateFrame, Templates};

fn templates() -> Templates {
    let small: Vec<u8> = (0..60).map(|i| i as u8).collect();
    let standard: Vec<u8> = (0..1500).map(|i| (255 - i % 256) as u8).collect();
    Templates::new(TemplateFrame::new(small).unwrap(), TemplateFrame::new(standard).unwrap())
        .unwrap()
}

fn opened(config: Config) -> (Engine, Action) {
    let mut engine = Engine::new(config, templates());
    engine.step(Event::Start).unwrap();
    let first = engine.step(Event::Opened).unwrap();
    (engine, first)
}

#[test]
fn a_new_engine_waits_for_the_start() {
    let engine = Engine::new(Config::Mirror, templates());
    assert_eq!(engine.phase(), Phase::Created);
    assert_eq!(engine.counter(), ThroughputCounter::new(LoopKind::Mirror));
    let engine = Engine::new(Config::Generate(TemplateSize::Small), templates());
    assert_eq!(engine.phase(), Phase::Created);
    assert_eq!(engine.counter(), ThroughputCounter::new(LoopKind::Generate));
}

#[test]
fn the_first_action_opens_the_channel() {
    for config in [Config::Mirror, Config::Generate(TemplateSize::Standard)] {
        let mut engine = Engine::new(config, templates());
        assert_eq!(
            engine.step(Event::Start),
            Some(Action::Open(OpenRequest {
                path: "network:".to_string(),
                read_write: true,
                non_blocking: true,
            }))
        );
        assert_eq!(engine.phase(), Phase::Opening);
    }
}

#[test]
fn the_mirror_begins_by_reading() {
    let (engine, first) = opened(Config::Mirror);
    assert_eq!(first, Action::Read(2048));
    assert_eq!(engine.phase(), Phase::Reading);
}

#[test]
fn the_generator_begins_by_writing() {
    let (engine, first) = opened(Config::Generate(TemplateSize::Small));
    assert_eq!(first, Action::Write((0..60).map(|i| i as u8).collect()));
    assert_eq!(engine.phase(), Phase::Writing);
    let (_, first) = opened(Config::Generate(TemplateSize::Standard));
    assert_eq!(first, Action::Write((0..1500).map(|i| (255 - i % 256) as u8).collect()));
}

#[test]
fn a_valid_frame_is_echoed_and_counted_once_written() {
    let (mut engine, _) = opened(Config::Mirror);
    let frame = vec![0x5Au8; 60];
    assert_eq!(
        engine.step(Event::ReadDone(ChannelRead::Data(frame.clone()))),
        Some(Action::Write(frame))
    );
    assert_eq!(engine.phase(), Phase::Writing);
    assert_eq!(engine.counter().packets, 0);
    assert_eq!(engine.step(Event::Written), Some(Action::SampleClock));
    assert_eq!(engine.counter().packets, 1);
    assert_eq!(engine.counter().iteration, 0);
}

#[test]
fn reads_without_a_frame_change_nothing() {
    let reads = [
        ChannelRead::Data(vec![1u8; 59]),
        ChannelRead::Data(vec![1u8; 1]),
        ChannelRead::Data(Vec::new()),
        ChannelRead::NoData,
        ChannelRead::Failed,
    ];
    for read in reads {
        let (mut engine, _) = opened(Config::Mirror);
        assert_eq!(engine.step(Event::ReadDone(read)), Some(Action::SampleClock));
        assert_eq!(engine.counter().packets, 0);
        assert_eq!(engine.step(Event::Clock(50)), Some(Action::Read(2048)));
        assert_eq!(engine.counter().packets, 0);
        assert_eq!(engine.counter().iteration, 1);
        assert_eq!(engine.step(Event::ReadDone(ChannelRead::NoData)), Some(Action::Read(2048)));
        assert_eq!(engine.counter().iteration, 2);
    }
}

#[test]
fn the_clock_is_read_on_the_stride_only() {
    let (mut engine, _) = opened(Config::Generate(TemplateSize::Small));
    let mut clock_reads = 0;
    for iteration in 0..64u64 {
        assert_eq!(engine.phase(), Phase::Writing);
        assert_eq!(engine.counter().iteration, iteration);
        match engine.step(Event::Written).unwrap() {
            Action::SampleClock => {
                assert_eq!(iteration % 16, 0);
                clock_reads += 1;
                match engine.step(Event::Clock(10)).unwrap() {
                    Action::Write(_) => {},
                    other => panic!("a write was due, not {:?}", other),
                }
            },
            Action::Write(_) => assert_ne!(iteration % 16, 0),
            other => panic!("a write or a look at the clock was due, not {:?}", other),
        }
    }
    assert_eq!(clock_reads, 4);
    assert_eq!(engine.counter().packets, 64);
}

#[test]
fn a_report_comes_after_more_than_a_second() {
    let (mut engine, _) = opened(Config::Generate(TemplateSize::Small));
    assert_eq!(engine.step(Event::Written), Some(Action::SampleClock));
    assert_eq!(
        engine.step(Event::Clock(1_000_000_000)),
        Some(Action::Write((0..60).map(|i| i as u8).collect()))
    );
    for _ in 1..16 {
        engine.step(Event::Written).unwrap();
    }
    assert_eq!(engine.step(Event::Written), Some(Action::SampleClock));
    assert_eq!(
        engine.step(Event::Clock(1_000_000_001)),
        Some(Action::Report("Sent packets: 17/s".to_string()))
    );
    assert_eq!(engine.phase(), Phase::Reporting);
    assert_eq!(
        engine.counter(),
        ThroughputCounter {
            kind: LoopKind::Generate,
            packets: 0,
            last_sample: 1_000_000_001,
            iteration: 17,
        }
    );
    assert_eq!(
        engine.step(Event::Reported),
        Some(Action::Write((0..60).map(|i| i as u8).collect()))
    );
}

#[test]
fn the_mirror_reports_what_it_forwarded() {
    let (mut engine, _) = opened(Config::Mirror);
    engine.step(Event::ReadDone(ChannelRead::Data(vec![9u8; 100]))).unwrap();
    assert_eq!(engine.step(Event::Written), Some(Action::SampleClock));
    assert_eq!(
        engine.step(Event::Clock(2_000_000_000)),
        Some(Action::Report("Forwarded packets: 1/s".to_string()))
    );
    assert_eq!(engine.step(Event::Reported), Some(Action::Read(2048)));
    assert_eq!(engine.counter().packets, 0);
}

#[test]
fn a_failed_write_ends_the_run() {
    for config in [Config::Mirror, Config::Generate(TemplateSize::Standard)] {
        let (mut engine, first) = opened(config);
        if first == Action::Read(2048) {
            engine.step(Event::ReadDone(ChannelRead::Data(vec![0u8; 60]))).unwrap();
        }
        let action = engine.step(Event::WriteFailed("Broken pipe (os error 32)".to_string()));
        assert_eq!(
            action,
            Some(Action::Fail(FatalError::WriteFailed("Broken pipe (os error 32)".to_string())))
        );
        assert_eq!(engine.phase(), Phase::Halted);
        assert_eq!(engine.counter().packets, 0);
        assert_eq!(engine.step(Event::Written), None);
        assert_eq!(engine.step(Event::Start), None);
    }
}

#[test]
fn fatal_errors_have_their_messages() {
    assert_eq!(
        FatalError::Setup(SetupError::ChannelOpenFailed).message(),
        "Can't open path network:"
    );
    assert_eq!(
        FatalError::Setup(SetupError::MissingSizeArgument).message(),
        "No argument to -s option"
    );
    assert_eq!(
        FatalError::WriteFailed("No space left on device".to_string()).message(),
        "No space left on device"
    );
}

#[test]
fn an_event_out_of_turn_is_refused() {
    let mut engine = Engine::new(Config::Mirror, templates());
    for event in [Event::Opened, Event::Written, Event::Clock(5), Event::Reported] {
        assert_eq!(engine.step(event), None);
        assert_eq!(engine, Engine::new(Config::Mirror, templates()));
    }
    let (mut engine, _) = opened(Config::Mirror);
    let before = engine.counter();
    for event in [Event::Start, Event::Opened, Event::Written, Event::Clock(5), Event::OpenFailed] {
        assert_eq!(engine.step(event), None);
        assert_eq!(engine.phase(), Phase::Reading);
        assert_eq!(engine.counter(), before);
    }
    let (mut engine, _) = opened(Config::Generate(TemplateSize::Small));
    assert_eq!(engine.step(Event::ReadDone(ChannelRead::Data(vec![0u8; 64]))), None);
    assert_eq!(engine.phase(), Phase::Writing);
}
