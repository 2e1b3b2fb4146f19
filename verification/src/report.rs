//! The report on a binary: its format, its architecture and the language
//! guess, as the lines to be shown, in order.

use vstd::prelude::*;
use vstd::string::*;
use crate::arch::{
    elf_architecture, elf_machine_is_mapped, get_architecture_name_elf, get_architecture_name_pe,
    pe_architecture, pe_machine_is_mapped,
};
use crate::container::{
    agrees_with_hint, classification, classify, Container, ParseError, ParseErrorView,
};
use crate::language::{detect_language, guess};

verus! {

/// The lines that describe a binary of the given container kind. ELF and PE
/// binaries get three lines; for anything else there is a single line, and
/// the bytes are not looked at.
pub open spec fn report(container: Container, bytes: Seq<u8>) -> Seq<Seq<char>> {
    match container {
        Container::Elf { machine } => seq![
            "Binary format: ELF"@,
            "Architecture: "@ + elf_architecture(machine),
            "Programming Language: "@ + guess(bytes).label(),
        ],
        Container::Pe { machine } => seq![
            "Binary format: PE"@,
            "Architecture: "@ + pe_architecture(machine),
            "Programming Language: "@ + guess(bytes).label(),
        ],
        Container::Other => seq!["Unknown binary format"@],
    }
}

/// The outcome of an analysis: the report where the buffer was classified,
/// the parser's error where it was not.
pub open spec fn analysis(
    parsed: Result<Container, ParseErrorView>,
    bytes: Seq<u8>,
) -> Result<Seq<Seq<char>>, ParseErrorView> {
    match parsed {
        Ok(container) => Ok(report(container, bytes)),
        Err(error) => Err(error),
    }
}

/// An analysis outcome with its texts as character sequences.
pub open spec fn analysis_view(outcome: Result<Vec<String>, ParseError>) -> Result<
    Seq<Seq<char>>,
    ParseErrorView,
> {
    match outcome {
        Ok(lines) => Ok(lines.deep_view()),
        Err(error) => Err(error@),
    }
}

/// `label` followed by `value`.
fn labelled(label: &str, value: &str) -> (line: String)
    ensures
        line@ == label@ + value@,
{
    let mut line = String::from_str(label);
    line.append(value);
    line
}

/// Writes the report on a classified binary. The language heuristic runs over
/// the whole buffer for ELF and PE binaries, and not at all for others.
pub fn report_lines(container: Container, bytes: &[u8]) -> (lines: Vec<String>)
    ensures
        lines.deep_view() == report(container, bytes@),
        container == Container::Other ==> lines.deep_view() == seq!["Unknown binary format"@],
{
    let mut lines: Vec<String> = Vec::new();
    match container {
        Container::Elf { machine } => {
            lines.push(String::from_str("Binary format: ELF"));
            lines.push(labelled("Architecture: ", get_architecture_name_elf(machine)));
            lines.push(labelled("Programming Language: ", detect_language(bytes).name()));
        },
        Container::Pe { machine } => {
            lines.push(String::from_str("Binary format: PE"));
            lines.push(labelled("Architecture: ", get_architecture_name_pe(machine)));
            lines.push(labelled("Programming Language: ", detect_language(bytes).name()));
        },
        Container::Other => {
            lines.push(String::from_str("Unknown binary format"));
        },
    }
    assert(lines.deep_view() =~= report(container, bytes@));
    lines
}

/// Classifies the buffer and writes the report on it.
///
/// The outcome is the report on the buffer's classification, or the error
/// where it has none. A single-architecture Mach-O file of sixteen bytes or
/// more is classified by its magic number alone and so is always reported in
/// one line, as a format that is not reported on.
pub fn analyze(bytes: &[u8]) -> (outcome: Result<Vec<String>, ParseError>)
    ensures
        analysis_view(outcome) == analysis(classification(bytes@), bytes@),
        agrees_with_hint(bytes@, classification(bytes@)),
{
    match classify(bytes) {
        Ok(container) => Ok(report_lines(container, bytes)),
        Err(error) => Err(error),
    }
}

/// Whether the container is an ELF or PE binary whose machine code has no
/// entry in its format's table.
pub open spec fn has_unmapped_machine(container: Container) -> bool {
    match container {
        Container::Elf { machine } => !elf_machine_is_mapped(machine),
        Container::Pe { machine } => !pe_machine_is_mapped(machine),
        Container::Other => false,
    }
}

/// An ELF binary with machine code `0x3E` and a PE binary with machine code
/// `0x8664` are both reported with the architecture line
/// `Architecture: x86-64`, whatever their bytes.
pub proof fn lemma_x86_64_architecture_line(bytes: Seq<u8>)
    ensures
        report(Container::Elf { machine: 0x3E }, bytes)[1] == "Architecture: x86-64"@,
        report(Container::Pe { machine: 0x8664 }, bytes)[1] == "Architecture: x86-64"@,
{
    reveal_strlit("Architecture: ");
    reveal_strlit("x86-64");
    reveal_strlit("Architecture: x86-64");
    assert("Architecture: "@ + "x86-64"@ =~= "Architecture: x86-64"@);
}

/// An ELF or PE binary whose machine code has no entry in its format's table
/// is reported with the architecture line `Architecture: Unknown`.
pub proof fn lemma_unmapped_machine_is_unknown(container: Container, bytes: Seq<u8>)
    requires
        has_unmapped_machine(container),
    ensures
        report(container, bytes).len() == 3,
        report(container, bytes)[1] == "Architecture: Unknown"@,
{
    reveal_strlit("Architecture: ");
    reveal_strlit("Unknown");
    reveal_strlit("Architecture: Unknown");
    assert("Architecture: "@ + "Unknown"@ =~= "Architecture: Unknown"@);
}

/// A binary that is neither ELF nor PE is reported in exactly one line,
/// whatever its bytes: there is no architecture line and no language line.
pub proof fn lemma_other_format_is_one_line(bytes: Seq<u8>)
    ensures
        report(Container::Other, bytes) == seq!["Unknown binary format"@],
        report(Container::Other, bytes).len() == 1,
{
}

} // verus!
