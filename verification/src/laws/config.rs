//! What holds of every command line.

use crate::config::{
    is_generate_flag, is_help_flag, is_size_flag, parse, parse_from, resolve, Command, Config,
    TemplateSize,
};
use crate::error::SetupError;
use vstd::prelude::*;

verus! {

/// Whether one of the arguments from position `at` on selects generator mode.
pub open spec fn asks_to_generate(args: Seq<Seq<char>>, at: int) -> bool {
    exists|k: int| at <= k < args.len() && is_generate_flag(#[trigger] args[k])
}

proof fn lemma_settings_stand(args: Seq<Seq<char>>, at: int, generate: bool, size: TemplateSize)
    requires
        0 <= at <= args.len(),
        forall|k: int|
            at <= k < args.len() ==> !is_size_flag(#[trigger] args[k]) && !is_help_flag(args[k]),
    ensures
        parse_from(args, at, generate, size) == Ok::<Command, SetupError>(
            Command::Run(resolve(generate || asks_to_generate(args, at), size)),
        ),
    decreases args.len() - at,
{
    if at < args.len() {
        let found = is_generate_flag(args[at]);
        lemma_settings_stand(args, at + 1, generate || found, size);
        assert(asks_to_generate(args, at) == (found || asks_to_generate(args, at + 1)));
    }
}

/// Without a size option the generator sends full-size frames: a command
/// line that holds neither the size option nor a request for help runs, as a
/// generator of 1500-byte frames where it selects generator mode, and as a
/// mirror where it does not.
pub proof fn law_default_size_is_standard(args: Seq<Seq<char>>)
    requires
        forall|k: int|
            0 <= k < args.len() ==> !is_size_flag(#[trigger] args[k]) && !is_help_flag(args[k]),
    ensures
        parse(args) == Ok::<Command, SetupError>(
            Command::Run(
                if asks_to_generate(args, 0) {
                    Config::Generate(TemplateSize::Standard)
                } else {
                    Config::Mirror
                },
            ),
        ),
{
    lemma_settings_stand(args, 0, false, TemplateSize::Standard);
}

} // verus!
