//! The lines a relocation reports while it runs.

use vstd::prelude::*;
use vstd::string::*;
use crate::decimal::{decimal, decimal_string};
use crate::error::FileError;

verus! {

/// Where a diagnostic is to be written.
#[derive(Debug, Clone, Copy, PartialEq, Eq)]
pub enum Stream {
    /// The standard output stream: progress of a run that is going well.
    Output,
    /// The standard error stream: the reason a run is about to fail.
    Error,
}

/// One line for the user, and the stream it belongs on.
#[derive(Debug, PartialEq, Eq)]
pub struct Diagnostic {
    pub stream: Stream,
    pub text: String,
}

/// A diagnostic as a mathematical value.
pub struct DiagnosticView {
    pub stream: Stream,
    pub text: Seq<char>,
}

impl View for Diagnostic {
    type V = DiagnosticView;

    open spec fn view(&self) -> DiagnosticView {
        DiagnosticView { stream: self.stream, text: self.text@ }
    }
}

/// The complaint about an input path that names nothing.
pub open spec fn missing_input_text(file: Seq<char>) -> Seq<char> {
    "Error: Input file '"@ + file + "' does not exist"@
}

/// The report of a finished copy: how many bytes went where.
pub open spec fn copied_text(bytes: nat, destination: Seq<char>) -> Seq<char> {
    "Successfully copied "@ + decimal(bytes) + " bytes to "@ + destination
}

/// The complaint about a failed copy, ending with the error's own rendering.
pub open spec fn copy_failed_text(error: FileError) -> Seq<char> {
    "Error during file copy: "@ + error.rendering()
}

/// The confirmation that the source file is gone.
pub open spec fn deleted_text() -> Seq<char> {
    "Original file successfully deleted"@
}

/// The `len` characters of `text` from position `at` on.
pub open spec fn part_at(text: Seq<char>, at: int, len: nat) -> Seq<char> {
    text.subrange(at, at + len)
}

/// Whether `part` stands somewhere in `text`, whole and in one piece.
pub open spec fn occurs_in(part: Seq<char>, text: Seq<char>) -> bool {
    exists|at: int|
        0 <= at <= text.len() - part.len() && #[trigger] part_at(text, at, part.len()) == part
}

impl Diagnostic {
    /// Says on the error stream that `file` does not exist.
    pub fn missing_input(file: &str) -> (d: Diagnostic)
        ensures
            d@ == (DiagnosticView { stream: Stream::Error, text: missing_input_text(file@) }),
    {
        let text = String::from_str("Error: Input file '").concat(file).concat(
            "' does not exist",
        );
        Diagnostic { stream: Stream::Error, text }
    }

    /// Says on the output stream that `bytes` bytes were copied to `destination`.
    pub fn copied(bytes: u64, destination: &str) -> (d: Diagnostic)
        ensures
            d@ == (DiagnosticView {
                stream: Stream::Output,
                text: copied_text(bytes as nat, destination@),
            }),
    {
        let count = decimal_string(bytes);
        let text = String::from_str("Successfully copied ").concat(count.as_str()).concat(
            " bytes to ",
        ).concat(destination);
        Diagnostic { stream: Stream::Output, text }
    }

    /// Says on the error stream that the copy failed, and why.
    pub fn copy_failed(error: &FileError) -> (d: Diagnostic)
        ensures
            d@ == (DiagnosticView { stream: Stream::Error, text: copy_failed_text(*error) }),
    {
        let reason = error.message();
        let text = String::from_str("Error during file copy: ").concat(reason.as_str());
        Diagnostic { stream: Stream::Error, text }
    }

    /// Says on the output stream that the source file was removed.
    pub fn deleted() -> (d: Diagnostic)
        ensures
            d@ == (DiagnosticView { stream: Stream::Output, text: deleted_text() }),
    {
        Diagnostic {
            stream: Stream::Output,
            text: String::from_str("Original file successfully deleted"),
        }
    }
}

/// Each line names what it is about: the complaint about a missing input
/// quotes the path, the report of a copy holds the byte count and the
/// destination, and the complaint about a failed copy holds the whole
/// rendering of the error.
pub proof fn lemma_lines_name_their_subject(path: Seq<char>, bytes: nat, error: FileError)
    ensures
        occurs_in(path, missing_input_text(path)),
        occurs_in(decimal(bytes), copied_text(bytes, path)),
        occurs_in(path, copied_text(bytes, path)),
        occurs_in(error.rendering(), copy_failed_text(error)),
{
    reveal_strlit("Error: Input file '");
    reveal_strlit("' does not exist");
    reveal_strlit("Successfully copied ");
    reveal_strlit(" bytes to ");
    reveal_strlit("Error during file copy: ");
    let count = decimal(bytes);
    assert(part_at(missing_input_text(path), 19, path.len()) =~= path);
    assert(part_at(copied_text(bytes, path), 20, count.len()) =~= count);
    assert(part_at(copied_text(bytes, path), 30 + count.len() as int, path.len()) =~= path);
    assert(part_at(copy_failed_text(error), 24, error.rendering().len())
        =~= error.rendering());
}

} // verus!
