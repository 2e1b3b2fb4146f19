//! What a run shows once the file it was asked to analyze has been read, or
//! could not be read: the lines for standard output and the lines for
//! standard error.

use vstd::prelude::*;
use vstd::string::*;
use crate::cli::{read_error_line, read_failure};
use crate::container::{agrees_with_hint, classification, ParseErrorView};
use crate::report::{analysis, analyze};

verus! {

/// The lines that a run shows, in order, on each of its two streams.
#[derive(Debug, PartialEq, Eq)]
pub struct Output {
    /// The lines for standard output.
    pub stdout: Vec<String>,
    /// The lines for standard error.
    pub stderr: Vec<String>,
}

/// An `Output` with its lines as character sequences.
pub struct OutputView {
    pub stdout: Seq<Seq<char>>,
    pub stderr: Seq<Seq<char>>,
}

impl View for Output {
    type V = OutputView;

    open spec fn view(&self) -> OutputView {
        OutputView { stdout: self.stdout.deep_view(), stderr: self.stderr.deep_view() }
    }
}

/// The outcome of reading a file, with the bytes as a sequence and the
/// error's text as a character sequence.
pub open spec fn read_view(read: Result<Vec<u8>, String>) -> Result<Seq<u8>, Seq<char>> {
    match read {
        Ok(bytes) => Ok(bytes@),
        Err(detail) => Err(detail@),
    }
}

/// What is shown for an analysis: the report on standard output, or else the
/// error's diagnostic line on standard error. Never both.
pub open spec fn output_of_analysis(
    outcome: Result<Seq<Seq<char>>, ParseErrorView>,
) -> OutputView {
    match outcome {
        Ok(lines) => OutputView { stdout: lines, stderr: Seq::empty() },
        Err(error) => OutputView { stdout: Seq::empty(), stderr: seq![error.diagnostic()] },
    }
}

/// What is shown after the attempt to read the file: for a file that could
/// not be read, one line on standard error that carries the read error, and
/// nothing on standard output; for a file that was read, what is shown for
/// its analysis.
pub open spec fn output_after_read(read: Result<Seq<u8>, Seq<char>>) -> OutputView {
    match read {
        Ok(bytes) => output_of_analysis(analysis(classification(bytes), bytes)),
        Err(detail) => OutputView { stdout: Seq::empty(), stderr: seq![read_failure(detail)] },
    }
}

/// Decides what a run shows, given the file's bytes or the text of the error
/// that kept it from being read.
///
/// A read error is answered without looking at any bytes: the buffer is not
/// classified and not scanned, standard output stays empty, and standard
/// error gets the one line that carries the error.
pub fn respond_to_read(read: Result<Vec<u8>, String>) -> (output: Output)
    ensures
        output@ == output_after_read(read_view(read)),
        (read matches Err(detail) ==> output@.stdout.len() == 0 && output@.stderr == seq![
            read_failure(detail@),
        ]),
        (read matches Ok(bytes) ==> agrees_with_hint(bytes@, classification(bytes@))),
{
    let mut stdout: Vec<String> = Vec::new();
    let mut stderr: Vec<String> = Vec::new();
    match read {
        Ok(bytes) => {
            match analyze(bytes.as_slice()) {
                Ok(lines) => {
                    stdout = lines;
                },
                Err(error) => {
                    stderr.push(error.diagnostic());
                },
            }
        },
        Err(detail) => {
            stderr.push(read_error_line(detail.as_str()));
        },
    }
    let output = Output { stdout, stderr };
    assert(output@.stdout =~= output_after_read(read_view(read)).stdout);
    assert(output@.stderr =~= output_after_read(read_view(read)).stderr);
    output
}

} // verus!
