//! The interactive control surface's decision: which console lines end the
//! recording. The prompt, the reading and the trimming of each line happen
//! outside this crate; the classification of the trimmed line is fixed
//! here.

use vstd::prelude::*;

verus! {

/// What one console line asks for: stop the session and terminate, or keep
/// prompting (empty lines and unrecognized lines alike are ignored).
#[derive(Clone, Copy, PartialEq, Eq, Debug, Structural)]
pub enum ConsoleCommand {
    StopAndExit,
    Ignore,
}

/// The classification of a trimmed console line: exactly the lines `exit`,
/// `stop` and `q` stop the recording.
pub open spec fn spec_parse_command(line: Seq<char>) -> ConsoleCommand {
    if line == "exit"@ || line == "stop"@ || line == "q"@ {
        ConsoleCommand::StopAndExit
    } else {
        ConsoleCommand::Ignore
    }
}

/// Classify one trimmed console line.
pub fn parse_command(line: &str) -> (cmd: ConsoleCommand)
    ensures
        cmd == spec_parse_command(line@),
{
    let line_owned = String::from_str(line);
    let is_stop = line_owned == String::from_str("exit") || line_owned == String::from_str("stop")
        || line_owned == String::from_str("q");
    if is_stop {
        ConsoleCommand::StopAndExit
    } else {
        ConsoleCommand::Ignore
    }
}

} // verus!
