//! The command line: what an argument list asks for, and the fixed texts
//! shown in answer.

use vstd::prelude::*;
use vstd::string::*;

verus! {

/// What an invocation asks for.
#[derive(Debug, PartialEq, Eq)]
pub enum Command {
    /// Show the help text.
    Help,
    /// Analyze the file at `path`.
    Analyze { path: String },
    /// Anything else: show how `program` is to be invoked.
    Usage { program: String },
}

/// Whether `argument` is one of the two spellings of the help flag.
pub open spec fn is_help_flag(argument: Seq<char>) -> bool {
    argument == "-h"@ || argument == "--help"@
}

/// The usage line for a program invoked as `program`.
pub open spec fn usage(program: Seq<char>) -> Seq<char> {
    "Usage: "@ + program + " <binary_path>"@
}

/// The help text, line by line.
pub open spec fn help() -> Seq<Seq<char>> {
    seq![
        "Usage: bytez <binary_path>"@,
        "Bytez analyzes binary files to determine their format, architecture, and programming language."@,
    ]
}

/// The diagnostic line for a file that could not be read.
pub open spec fn read_failure(detail: Seq<char>) -> Seq<char> {
    "Error reading binary file: "@ + detail
}

/// Decides what an invocation asks for, from the name the program was
/// invoked under and the arguments that followed it.
///
/// A single argument that is a help flag asks for help; any other single
/// argument is the path of the file to analyze; every other number of
/// arguments, none included, is answered with the usage line.
pub fn parse_command(program: &str, arguments: &[String]) -> (command: Command)
    ensures
        command is Help <==> arguments@.len() == 1 && is_help_flag(arguments@[0]@),
        command is Analyze <==> arguments@.len() == 1 && !is_help_flag(arguments@[0]@),
        command is Usage <==> arguments@.len() != 1,
        (command matches Command::Analyze { path } ==> path@ == arguments@[0]@),
        (command matches Command::Usage { program: name } ==> name@ == program@),
{
    if arguments.len() != 1 {
        return Command::Usage { program: String::from_str(program) };
    }
    let short = String::from_str("-h");
    let long = String::from_str("--help");
    if arguments[0] == short || arguments[0] == long {
        Command::Help
    } else {
        Command::Analyze { path: arguments[0].clone() }
    }
}

/// The usage line for a program invoked as `program`.
pub fn usage_line(program: &str) -> (line: String)
    ensures
        line@ == usage(program@),
{
    let mut line = String::from_str("Usage: ");
    line.append(program);
    line.append(" <binary_path>");
    line
}

/// The help text, line by line.
pub fn help_lines() -> (lines: Vec<String>)
    ensures
        lines.deep_view() == help(),
{
    let mut lines: Vec<String> = Vec::new();
    lines.push(String::from_str("Usage: bytez <binary_path>"));
    lines.push(
        String::from_str(
            "Bytez analyzes binary files to determine their format, architecture, and programming language.",
        ),
    );
    assert(lines.deep_view() =~= help());
    lines
}

/// The diagnostic line for a file that could not be read, given the
/// underlying error's text.
pub fn read_error_line(detail: &str) -> (line: String)
    ensures
        line@ == read_failure(detail@),
{
    let mut line = String::from_str("Error reading binary file: ");
    line.append(detail);
    line
}

} // verus!
