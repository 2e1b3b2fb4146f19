//! Classification of a buffer by its container format.
//!
//! The headers themselves are parsed by the `goblin` crate. This module keeps
//! of its answer what the rest of the library reads: the container kind and
//! the machine-type code, or the reason why the buffer could not be parsed.

use vstd::prelude::*;
use vstd::string::*;
use crate::scan::ascii;

verus! {

/// The container format of a binary, with the raw machine-type code of its
/// header where the format is one that is reported on.
#[derive(Clone, Copy, Debug, PartialEq, Eq, Structural)]
pub enum Container {
    /// An ELF file and its `e_machine` field.
    Elf { machine: u16 },
    /// A PE file and the machine field of its COFF header.
    Pe { machine: u16 },
    /// A format that was recognised but is not reported on, or no known format.
    Other,
}

/// Why a buffer could not be classified.
#[derive(Debug, PartialEq, Eq)]
pub enum ParseError {
    /// The buffer has the shape of a known container but is truncated or
    /// inconsistent. Holds the parser's message.
    Malformed(String),
    /// Any other failure. Holds the debug rendering of the parser's error,
    /// or the reason why the parser was not run.
    Unexpected(String),
}

/// A `ParseError` with its texts as character sequences.
pub enum ParseErrorView {
    Malformed(Seq<char>),
    Unexpected(Seq<char>),
}

impl View for ParseError {
    type V = ParseErrorView;

    open spec fn view(&self) -> ParseErrorView {
        match self {
            ParseError::Malformed(message) => ParseErrorView::Malformed(message@),
            ParseError::Unexpected(detail) => ParseErrorView::Unexpected(detail@),
        }
    }
}

impl ParseErrorView {
    /// The diagnostic line for this error.
    pub open spec fn diagnostic(self) -> Seq<char> {
        match self {
            ParseErrorView::Malformed(message) => "Error parsing binary: "@ + message,
            ParseErrorView::Unexpected(detail) => "Unexpected error: "@ + detail,
        }
    }
}

impl ParseError {
    /// The diagnostic line for this error: the parser's own message for a
    /// malformed container, a generic line with the detail for anything else.
    pub fn diagnostic(&self) -> (line: String)
        ensures
            line@ == self@.diagnostic(),
    {
        match self {
            ParseError::Malformed(message) => {
                let mut line = String::from_str("Error parsing binary: ");
                line.append(message.as_str());
                line
            },
            ParseError::Unexpected(detail) => {
                let mut line = String::from_str("Unexpected error: ");
                line.append(detail.as_str());
                line
            },
        }
    }
}

/// The outcome of a classification, with the texts of an error as character
/// sequences.
pub open spec fn outcome_view(outcome: Result<Container, ParseError>) -> Result<
    Container,
    ParseErrorView,
> {
    match outcome {
        Ok(container) => Ok(container),
        Err(error) => Err(error@),
    }
}

/// The four bytes that open every ELF file: `0x7f`, then `ELF`.
pub open spec fn elf_magic() -> Seq<u8> {
    seq![0x7fu8] + ascii("ELF"@)
}

/// The two bytes that open the DOS header of every PE file: `MZ`.
pub open spec fn dos_magic() -> Seq<u8> {
    ascii("MZ"@)
}

/// The fewest bytes a buffer must hold for its format to be looked at.
pub open spec fn hint_len() -> nat {
    16
}

/// What the first bytes of a buffer settle about its classification: a
/// buffer too short to hold a format hint is malformed, a buffer classified
/// as ELF opens with the ELF magic, and one classified as PE opens with the
/// DOS magic.
pub open spec fn agrees_with_hint(
    bytes: Seq<u8>,
    outcome: Result<Container, ParseErrorView>,
) -> bool {
    &&& bytes.len() < hint_len() ==> outcome == Err::<Container, ParseErrorView>(
        ParseErrorView::Malformed("Object is too small."@),
    )
    &&& outcome matches Ok(Container::Elf { .. }) ==> elf_magic().is_prefix_of(bytes)
    &&& outcome matches Ok(Container::Pe { .. }) ==> dos_magic().is_prefix_of(bytes)
}

/// Whether the buffer opens with one of the four magic numbers of a
/// single-architecture Mach-O file: 32-bit or 64-bit, in either byte order.
pub open spec fn opens_with_mach_magic(bytes: Seq<u8>) -> bool {
    &&& bytes.len() >= 4
    &&& {
        ||| bytes[0] == 0xfe && bytes[1] == 0xed && bytes[2] == 0xfa && bytes[3] == 0xce
        ||| bytes[0] == 0xfe && bytes[1] == 0xed && bytes[2] == 0xfa && bytes[3] == 0xcf
        ||| bytes[0] == 0xce && bytes[1] == 0xfa && bytes[2] == 0xed && bytes[3] == 0xfe
        ||| bytes[0] == 0xcf && bytes[1] == 0xfa && bytes[2] == 0xed && bytes[3] == 0xfe
    }
}

/// Whether the buffer is classified by its magic number alone, without the
/// parser: it is long enough to hold a format hint and opens as a
/// single-architecture Mach-O file.
pub open spec fn set_aside(bytes: Seq<u8>) -> bool {
    bytes.len() >= hint_len() && opens_with_mach_magic(bytes)
}

/// Whether `usize` has 64 bits on the target.
pub open spec fn wide_target() -> bool {
    usize::BITS == 64
}

/// Whether the buffer may be handed to the parser. A buffer too short to
/// hold a format hint always may. A longer one may on a 64-bit target, unless
/// it opens as a single-architecture Mach-O file.
pub open spec fn parser_admits(bytes: Seq<u8>) -> bool {
    bytes.len() < hint_len() || (wide_target() && !opens_with_mach_magic(bytes))
}

/// The detail of the error that answers a buffer on a target where the
/// parser is not run.
pub open spec fn narrow_target_detail() -> Seq<char> {
    "the parser is only run on 64-bit targets"@
}

/// What `goblin::Object::parse` makes of a buffer, reduced to the container
/// kind and machine code, or to the error. The parser reads nothing but the
/// buffer, so on one target its answer is a function of the bytes.
pub uninterp spec fn parsed_object(bytes: Seq<u8>) -> Result<Container, ParseErrorView>;

/// The classification of a buffer: what the parser makes of it where the
/// parser admits it, `Other` for a buffer that is set aside, and an error
/// for any other buffer, which there is only on a target that is not 64-bit.
pub open spec fn classification(bytes: Seq<u8>) -> Result<Container, ParseErrorView> {
    if parser_admits(bytes) {
        parsed_object(bytes)
    } else if set_aside(bytes) {
        Ok(Container::Other)
    } else {
        Err(ParseErrorView::Unexpected(narrow_target_detail()))
    }
}

/// Runs `goblin::Object::parse` on the buffer and keeps the container kind
/// with its machine field: `header.e_machine` of an ELF object,
/// `header.coff_header.machine` of a PE object, and nothing of any other
/// object. A `goblin::error::Error::Malformed` keeps its message; any other
/// error is kept as its `Debug` rendering.
///
/// Nothing of this is proved. The contract names the outcome and states
/// three things that the parser's dispatch on the first sixteen bytes shows:
/// a buffer shorter than that is refused as malformed with the message
/// `Object is too small.`, an ELF object is only ever returned for a buffer
/// that opens with the ELF magic, and a PE object only for one that opens
/// with `MZ`.
///
/// Two kinds of buffer must not be handed over, because the parser may
/// panic on them where arithmetic overflow is checked. One is a
/// single-architecture Mach-O file: the parser computes its entry point by
/// subtracting and adding 64-bit fields of the load commands as they come.
/// The other is any buffer of sixteen bytes or more on a target whose
/// `usize` has fewer than 64 bits: the parser adds up offsets and sizes from
/// 32-bit and 64-bit fields in `usize`.
///
/// The parser's log records are taken to be off, as they are unless the
/// program installs a logger: a few of them compute sums that the parsing
/// itself does not need.
#[verifier::external_body]
fn parse_object(bytes: &[u8]) -> (outcome: Result<Container, ParseError>)
    requires
        parser_admits(bytes@),
    ensures
        outcome_view(outcome) == parsed_object(bytes@),
        agrees_with_hint(bytes@, outcome_view(outcome)),
{
    match goblin::Object::parse(bytes) {
        Ok(goblin::Object::Elf(elf)) => Ok(Container::Elf { machine: elf.header.e_machine }),
        Ok(goblin::Object::PE(pe)) => Ok(Container::Pe { machine: pe.header.coff_header.machine }),
        Ok(_) => Ok(Container::Other),
        Err(goblin::error::Error::Malformed(message)) => Err(ParseError::Malformed(message)),
        Err(error) => Err(ParseError::Unexpected(format!("{:?}", error))),
    }
}

/// Whether the buffer opens with the magic number of a single-architecture
/// Mach-O file.
fn has_mach_magic(bytes: &[u8]) -> (thin: bool)
    ensures
        thin == opens_with_mach_magic(bytes@),
{
    if bytes.len() < 4 {
        return false;
    }
    let big_endian = bytes[0] == 0xfe && bytes[1] == 0xed && bytes[2] == 0xfa && (bytes[3] == 0xce
        || bytes[3] == 0xcf);
    let little_endian = (bytes[0] == 0xce || bytes[0] == 0xcf) && bytes[1] == 0xfa && bytes[2]
        == 0xed && bytes[3] == 0xfe;
    big_endian || little_endian
}

/// Classifies a buffer by its container format.
///
/// A buffer of fewer than sixteen bytes is handed to the parser, which
/// refuses it as malformed. Of the longer ones, a buffer that opens with the
/// magic number of a single-architecture Mach-O file is classified as `Other`
/// by that magic number alone, whether the rest of it is a well-formed Mach-O
/// file or not. Every other buffer is handed to the parser, and the outcome
/// is the parser's; a buffer classified as ELF or PE opens with that format's
/// magic bytes. On a target that is not 64-bit the parser is not run on such
/// a buffer, and the outcome is an error that says so.
pub fn classify(bytes: &[u8]) -> (outcome: Result<Container, ParseError>)
    ensures
        outcome_view(outcome) == classification(bytes@),
        agrees_with_hint(bytes@, outcome_view(outcome)),
        (set_aside(bytes@) ==> outcome matches Ok(Container::Other)),
{
    if bytes.len() < 16 {
        return parse_object(bytes);
    }
    if has_mach_magic(bytes) {
        return Ok(Container::Other);
    }
    if usize::BITS != 64 {
        let detail = String::from_str("the parser is only run on 64-bit targets");
        return Err(ParseError::Unexpected(detail));
    }
    parse_object(bytes)
}

} // verus!
