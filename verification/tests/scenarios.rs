use rheinfall::config::{parse_args, Command, Config, TemplateSize};
use rheinfall::engine::{Action, Engine, Event, Phase};
use rheinfall::error::{FatalError, SetupError};
use rheinfall::frame::{ChannelRead, TemplateFrame, Templates};

fn templates(small: &[u8], standard: &[u8]) -> Templates {
    Templates::new(
        TemplateFrame::new(small.to_vec()).unwrap(),
        TemplateFrame::new(standard.to_vec()).unwrap(),
    )
    .unwrap()
}

fn line(words: &[&str]) -> Vec<String> {
    words.iter().map(|word| word.to_string()).collect()
}

/// Plays the part of the channel and the clock: frames to deliver, writes
/// seen, lines printed, and a clock that moves on with every look at it.
struct Bench {
    incoming: Vec<ChannelRead>,
    written: Vec<Vec<u8>>,
    printed: Vec<String>,
    now: u64,
    tick: u64,
}

impl Bench {
    fn new(mut incoming: Vec<ChannelRead>, tick: u64) -> Bench {
        incoming.reverse();
        Bench { incoming, written: Vec::new(), printed: Vec::new(), now: 0, tick }
    }

    /// Runs the engine until the frames are used up (mirror), `writes` writes
    /// were seen (generator), or the engine fails.
    fn run(&mut self, engine: &mut Engine, writes: usize) -> Option<FatalError> {
        let mut event = Event::Start;
        loop {
            let action = engine.step(event).expect("the bench answers each action in turn");
            event = match action {
                Action::Open(_) => Event::Opened,
                Action::Read(limit) => {
                    assert_eq!(limit, 2048);
                    match self.incoming.pop() {
                        Some(read) => Event::ReadDone(read),
                        None => return None,
                    }
                },
                Action::Write(bytes) => {
                    self.written.push(bytes);
                    if self.written.len() == writes {
                        return None;
                    }
                    Event::Written
                },
                Action::SampleClock => {
                    self.now += self.tick;
                    Event::Clock(self.now)
                },
                Action::Report(text) => {
                    self.printed.push(text);
                    Event::Reported
                },
                Action::Fail(error) => return Some(error),
            };
        }
    }
}

#[test]
fn a_64_byte_frame_is_written_back_and_counted() {
    let frame: Vec<u8> = (0..64).map(|i| (i * 3) as u8).collect();
    let mut engine = Engine::new(Config::Mirror, templates(&[0; 60], &[0; 1500]));
    let mut bench = Bench::new(vec![ChannelRead::Data(frame.clone())], 1);
    assert_eq!(bench.run(&mut engine, 0), None);
    assert_eq!(bench.written, vec![frame]);
    assert_eq!(engine.counter().packets, 1);
}

#[test]
fn a_40_byte_frame_is_dropped() {
    let frame: Vec<u8> = (0..40).map(|i| i as u8).collect();
    let mut engine = Engine::new(Config::Mirror, templates(&[0; 60], &[0; 1500]));
    let mut bench = Bench::new(vec![ChannelRead::Data(frame)], 1);
    assert_eq!(bench.run(&mut engine, 0), None);
    assert!(bench.written.is_empty());
    assert_eq!(engine.counter().packets, 0);
}

#[test]
fn size_100_stops_the_program_before_any_loop() {
    let outcome = parse_args(&line(&["--size", "100"]));
    assert_eq!(outcome, Err(SetupError::InvalidSizeArgument(Some(100))));
    assert_eq!(outcome.unwrap_err().message(), "Size has to be 60 or 1500 Bytes");
}

#[test]
fn generate_size_60_writes_the_small_template_every_time() {
    let small: Vec<u8> = (0..60).map(|i| (200 - i) as u8).collect();
    let command = parse_args(&line(&["--generate", "--size", "60"])).unwrap();
    assert_eq!(command, Command::Run(Config::Generate(TemplateSize::Small)));
    let config = match command {
        Command::Run(config) => config,
        Command::Help => unreachable!(),
    };
    let mut engine = Engine::new(config, templates(&small, &[7; 1500]));
    let mut bench = Bench::new(Vec::new(), 1000);
    assert_eq!(bench.run(&mut engine, 500), None);
    assert_eq!(bench.written.len(), 500);
    for written in &bench.written {
        assert_eq!(written, &small);
    }
    assert_eq!(engine.counter().packets, 499);
}

#[test]
fn generate_without_size_writes_the_standard_template_every_time() {
    let standard: Vec<u8> = (0..1500).map(|i| (i % 256) as u8).collect();
    let command = parse_args(&line(&["-g"])).unwrap();
    assert_eq!(command, Command::Run(Config::Generate(TemplateSize::Standard)));
    let mut engine = Engine::new(
        Config::Generate(TemplateSize::Standard),
        templates(&[7; 60], &standard),
    );
    let mut bench = Bench::new(Vec::new(), 1000);
    assert_eq!(bench.run(&mut engine, 300), None);
    assert_eq!(bench.written.len(), 300);
    for written in &bench.written {
        assert_eq!(written.len(), 1500);
        assert_eq!(written, &standard);
    }
}

#[test]
fn a_channel_that_does_not_open_ends_the_run_at_once() {
    for config in [Config::Mirror, Config::Generate(TemplateSize::Small)] {
        let mut engine = Engine::new(config, templates(&[0; 60], &[0; 1500]));
        assert!(matches!(engine.step(Event::Start), Some(Action::Open(_))));
        let action = engine.step(Event::OpenFailed).unwrap();
        assert_eq!(action, Action::Fail(FatalError::Setup(SetupError::ChannelOpenFailed)));
        match action {
            Action::Fail(error) => assert_eq!(error.message(), "Can't open path network:"),
            _ => unreachable!(),
        }
        assert_eq!(engine.phase(), Phase::Halted);
        assert_eq!(engine.step(Event::Opened), None);
        assert_eq!(engine.step(Event::ReadDone(ChannelRead::NoData)), None);
        assert_eq!(engine.step(Event::Written), None);
        assert_eq!(engine.step(Event::Clock(1)), None);
        assert_eq!(engine.phase(), Phase::Halted);
    }
}

#[test]
fn the_mirror_echoes_exactly_the_valid_frames() {
    let mut incoming = Vec::new();
    let mut expected = Vec::new();
    for round in 0..2000usize {
        let len = (round * 37) % 130;
        let frame: Vec<u8> = (0..len).map(|i| (i + round) as u8).collect();
        if len >= 60 {
            expected.push(frame.clone());
        }
        incoming.push(ChannelRead::Data(frame));
        if round % 7 == 0 {
            incoming.push(ChannelRead::NoData);
        }
        if round % 11 == 0 {
            incoming.push(ChannelRead::Failed);
        }
    }
    let mut engine = Engine::new(Config::Mirror, templates(&[0; 60], &[0; 1500]));
    let mut bench = Bench::new(incoming, 1);
    assert_eq!(bench.run(&mut engine, 0), None);
    assert_eq!(bench.written, expected);
    assert_eq!(engine.counter().packets, expected.len() as u64);
    assert!(bench.printed.is_empty());
}

#[test]
fn the_generator_reports_once_a_second() {
    let mut engine = Engine::new(
        Config::Generate(TemplateSize::Small),
        templates(&[1; 60], &[2; 1500]),
    );
    // One look at the clock in 16 iterations, 0.4 s between looks: every
    // third look comes more than a second after the last report.
    let mut bench = Bench::new(Vec::new(), 400_000_000);
    assert_eq!(bench.run(&mut engine, 16 * 9 + 1), None);
    assert_eq!(
        bench.printed,
        vec![
            "Sent packets: 33/s".to_string(),
            "Sent packets: 48/s".to_string(),
            "Sent packets: 48/s".to_string(),
        ]
    );
}

#[test]
fn a_write_failure_is_reported_as_the_channel_gave_it() {
    let mut engine = Engine::new(
        Config::Generate(TemplateSize::Standard),
        templates(&[1; 60], &[2; 1500]),
    );
    engine.step(Event::Start).unwrap();
    assert_eq!(engine.step(Event::Opened), Some(Action::Write(vec![2; 1500])));
    let action = engine.step(Event::WriteFailed("Input/output error (os error 5)".to_string()));
    match action {
        Some(Action::Fail(error)) => {
            assert_eq!(error.message(), "Input/output error (os error 5)")
        },
        other => panic!("a failure was due, not {:?}", other),
    }
}
