use bytez::cli::{help_lines, parse_command, read_error_line, usage_line, Command};

/// The command for a whole argument list, the program's name first.
fn command(list: &[&str]) -> Command {
    let arguments: Vec<String> = list[1..].iter().map(|arg| arg.to_string()).collect();
    parse_command(list[0], &arguments)
}

fn usage(program: &str) -> Command {
    Command::Usage { program: program.to_string() }
}

fn analyze_command(path: &str) -> Command {
    Command::Analyze { path: path.to_string() }
}

#[test]
fn short_help_flag() {
    assert_eq!(command(&["bytez", "-h"]), Command::Help);
}

#[test]
fn long_help_flag() {
    assert_eq!(command(&["bytez", "--help"]), Command::Help);
}

#[test]
fn help_flag_under_any_program_name() {
    assert_eq!(command(&["/usr/local/bin/tool", "-h"]), Command::Help);
    assert_eq!(command(&["", "--help"]), Command::Help);
}

#[test]
fn a_single_path_is_analyzed() {
    assert_eq!(command(&["bytez", "/bin/ls"]), analyze_command("/bin/ls"));
    assert_eq!(command(&["bytez", ""]), analyze_command(""));
    assert_eq!(command(&["bytez", "bytez"]), analyze_command("bytez"));
}

#[test]
fn near_misses_of_the_help_flag_are_paths() {
    for word in ["-H", "--Help", "-help", "--h", "-h ", " -h", "help", "--help=1", "-", "--"] {
        assert_eq!(command(&["bytez", word]), analyze_command(word));
    }
}

#[test]
fn no_argument_gives_usage() {
    assert_eq!(command(&["bytez"]), usage("bytez"));
    assert_eq!(parse_command("bytez", &[]), usage("bytez"));
}

#[test]
fn two_arguments_give_usage() {
    assert_eq!(command(&["./target/bytez", "a.out", "b.out"]), usage("./target/bytez"));
}

#[test]
fn help_flag_among_several_arguments_gives_usage() {
    assert_eq!(command(&["bytez", "-h", "a.out"]), usage("bytez"));
    assert_eq!(command(&["bytez", "a.out", "-h"]), usage("bytez"));
    assert_eq!(command(&["bytez", "--help", "-h"]), usage("bytez"));
    assert_eq!(command(&["bytez", "a", "b", "c", "--help"]), usage("bytez"));
}

#[test]
fn usage_keeps_the_program_name_as_given() {
    assert_eq!(command(&["-h"]), usage("-h"));
    assert_eq!(command(&["", "a", "b"]), usage(""));
}

#[test]
fn usage_line_names_the_program() {
    assert_eq!(usage_line("bytez"), "Usage: bytez <binary_path>");
    assert_eq!(usage_line("./a b/c"), "Usage: ./a b/c <binary_path>");
    assert_eq!(usage_line(""), "Usage:  <binary_path>");
}

#[test]
fn usage_line_keeps_text_beyond_ascii() {
    assert_eq!(usage_line("outil-\u{e9}t\u{e9}"), "Usage: outil-\u{e9}t\u{e9} <binary_path>");
}

#[test]
fn usage_line_of_a_usage_command() {
    match command(&["./bytez", "a", "b"]) {
        Command::Usage { program } => {
            assert_eq!(usage_line(&program), "Usage: ./bytez <binary_path>")
        }
        other => panic!("{:?}", other),
    }
}

#[test]
fn help_text() {
    assert_eq!(
        help_lines(),
        vec![
            "Usage: bytez <binary_path>".to_string(),
            "Bytez analyzes binary files to determine their format, architecture, and programming language."
                .to_string(),
        ]
    );
}

#[test]
fn read_error_line_carries_the_detail() {
    assert_eq!(
        read_error_line("No such file or directory (os error 2)"),
        "Error reading binary file: No such file or directory (os error 2)"
    );
    assert_eq!(read_error_line(""), "Error reading binary file: ");
}
