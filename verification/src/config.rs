//! The command line: what it may hold and what it resolves to.

use crate::error::SetupError;
use crate::text::{decimal_i64, parse_decimal, same_text};
use vstd::prelude::*;

verus! {

/// The two lengths a generated frame may have.
#[derive(Clone, Copy, Debug, PartialEq, Eq, Structural)]
pub enum TemplateSize {
    /// 60 bytes, the shortest frame the channel accepts.
    Small,
    /// 1500 bytes, a full payload.
    Standard,
}

impl TemplateSize {
    /// The length in bytes.
    pub open spec fn spec_len(self) -> usize {
        match self {
            TemplateSize::Small => 60,
            TemplateSize::Standard => 1500,
        }
    }

    /// The size that the number `n` selects, if it selects one.
    pub open spec fn spec_from_number(n: i64) -> Option<TemplateSize> {
        if n == 60 {
            Some(TemplateSize::Small)
        } else if n == 1500 {
            Some(TemplateSize::Standard)
        } else {
            None
        }
    }

    /// The length in bytes.
    #[verifier::when_used_as_spec(spec_len)]
    pub fn len(self) -> (len: usize)
        ensures
            len == self.spec_len(),
    {
        match self {
            TemplateSize::Small => 60,
            TemplateSize::Standard => 1500,
        }
    }

    /// The size that the number `n` selects: 60 and 1500 select one, no
    /// other number does.
    #[verifier::when_used_as_spec(spec_from_number)]
    pub fn from_number(n: i64) -> (size: Option<TemplateSize>)
        ensures
            size == Self::spec_from_number(n),
    {
        if n == 60 {
            Some(TemplateSize::Small)
        } else if n == 1500 {
            Some(TemplateSize::Standard)
        } else {
            None
        }
    }
}

/// What the program is to do once it runs.
#[derive(Clone, Copy, Debug, PartialEq, Eq, Structural)]
pub enum Config {
    /// Send every valid frame back as it came.
    Mirror,
    /// Send one fixed frame of the given size over and over.
    Generate(TemplateSize),
}

/// What a command line asks for.
#[derive(Clone, Copy, Debug, PartialEq, Eq, Structural)]
pub enum Command {
    /// Print the manual page and leave.
    Help,
    /// Open the channel and run.
    Run(Config),
}

/// Whether `arg` asks for the manual page.
pub open spec fn is_help_flag(arg: Seq<char>) -> bool {
    arg == "--help"@ || arg == "-h"@
}

/// Whether `arg` selects generator mode.
pub open spec fn is_generate_flag(arg: Seq<char>) -> bool {
    arg == "--generate"@ || arg == "-g"@
}

/// Whether `arg` announces a frame size.
pub open spec fn is_size_flag(arg: Seq<char>) -> bool {
    arg == "--size"@ || arg == "-s"@
}

/// What the argument after the size option selects.
pub open spec fn size_argument(arg: Seq<char>) -> Result<TemplateSize, SetupError> {
    match decimal_i64(arg) {
        None => Err(SetupError::InvalidSizeArgument(None)),
        Some(n) => match TemplateSize::spec_from_number(n) {
            Some(size) => Ok(size),
            None => Err(SetupError::InvalidSizeArgument(Some(n))),
        },
    }
}

/// The configuration that the two settings of the command line add up to. A
/// size given without the generator option has no effect.
pub open spec fn resolve(generate: bool, size: TemplateSize) -> Config {
    if generate {
        Config::Generate(size)
    } else {
        Config::Mirror
    }
}

/// The meaning of the arguments from position `at` on, with the settings that
/// the arguments before it have left. Arguments are taken left to right; the
/// first to ask for help or to be in error decides, later settings override
/// earlier ones, and unknown arguments are passed over.
pub open spec fn parse_from(
    args: Seq<Seq<char>>,
    at: int,
    generate: bool,
    size: TemplateSize,
) -> Result<Command, SetupError>
    decreases args.len() - at,
{
    if at < 0 || at >= args.len() {
        Ok(Command::Run(resolve(generate, size)))
    } else if is_help_flag(args[at]) {
        Ok(Command::Help)
    } else if is_generate_flag(args[at]) {
        parse_from(args, at + 1, true, size)
    } else if is_size_flag(args[at]) {
        if at + 1 >= args.len() {
            Err(SetupError::MissingSizeArgument)
        } else {
            match size_argument(args[at + 1]) {
                Ok(given) => parse_from(args, at + 2, generate, given),
                Err(error) => Err(error),
            }
        }
    } else {
        parse_from(args, at + 1, generate, size)
    }
}

/// The meaning of a whole command line, program name left out: mirror mode
/// and, for the generator, full-size frames unless the arguments say otherwise.
pub open spec fn parse(args: Seq<Seq<char>>) -> Result<Command, SetupError> {
    parse_from(args, 0, false, TemplateSize::Standard)
}

/// The arguments as plain texts.
pub open spec fn texts(args: Seq<String>) -> Seq<Seq<char>> {
    Seq::new(args.len(), |i: int| args[i]@)
}

/// Decides what the argument after the size option selects.
pub fn parse_size(arg: &str) -> (outcome: Result<TemplateSize, SetupError>)
    ensures
        outcome == size_argument(arg@),
{
    match parse_decimal(arg) {
        None => Err(SetupError::InvalidSizeArgument(None)),
        Some(n) => match TemplateSize::from_number(n) {
            Some(size) => Ok(size),
            None => Err(SetupError::InvalidSizeArgument(Some(n))),
        },
    }
}

/// Reads the command line, program name left out.
pub fn parse_args(args: &[String]) -> (outcome: Result<Command, SetupError>)
    ensures
        outcome == parse(texts(args@)),
{
    let mut generate = false;
    let mut size = TemplateSize::Standard;
    let mut at: usize = 0;
    while at < args.len()
        invariant
            at <= args@.len(),
            parse_from(texts(args@), at as int, generate, size) == parse(texts(args@)),
        decreases args@.len() - at,
    {
        let arg = args[at].as_str();
        if same_text(arg, "--help") || same_text(arg, "-h") {
            return Ok(Command::Help);
        } else if same_text(arg, "--generate") || same_text(arg, "-g") {
            generate = true;
            at += 1;
        } else if same_text(arg, "--size") || same_text(arg, "-s") {
            if at + 1 >= args.len() {
                return Err(SetupError::MissingSizeArgument);
            }
            let given = args[at + 1].as_str();
            match parse_size(given) {
                Ok(chosen) => {
                    size = chosen;
                    at += 2;
                },
                Err(error) => {
                    return Err(error);
                },
            }
        } else {
            at += 1;
        }
    }
    Ok(Command::Run(if generate {
        Config::Generate(size)
    } else {
        Config::Mirror
    }))
}

} // verus!
