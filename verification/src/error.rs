//! The error taxonomy of a relocation and its user-facing rendering.

use vstd::prelude::*;
use vstd::string::*;

verus! {

/// An operating-system failure, held as the text the system rendered for it.
///
/// The text is kept whole: every rendering of an error that wraps an `OsError`
/// ends with exactly this description.
#[derive(Debug, PartialEq, Eq)]
pub struct OsError {
    pub description: String,
}

impl View for OsError {
    type V = Seq<char>;

    open spec fn view(&self) -> Seq<char> {
        self.description@
    }
}

impl OsError {
    /// Wraps the rendered text of an operating-system error.
    pub fn new(description: &str) -> (e: OsError)
        ensures
            e@ == description@,
    {
        OsError { description: String::from_str(description) }
    }
}

/// Why a relocation stopped. Exactly one phase is named by each value.
#[derive(Debug, PartialEq, Eq)]
pub enum FileError {
    /// No input was given, or the input names nothing that exists.
    NoFileSpecified,
    /// The copy into the temporary directory failed; the source is untouched.
    CopyError(OsError),
    /// The copy succeeded but the source could not be removed.
    DeleteError(OsError),
}

impl FileError {
    /// The text shown to the user for this error.
    pub open spec fn rendering(self) -> Seq<char> {
        match self {
            FileError::NoFileSpecified => "No input file specified"@,
            FileError::CopyError(e) => "Failed to copy file: "@ + e@,
            FileError::DeleteError(e) => "Failed to delete original file: "@ + e@,
        }
    }

    /// Renders the error for the user.
    pub fn message(&self) -> (text: String)
        ensures
            text@ == self.rendering(),
    {
        match self {
            FileError::NoFileSpecified => String::from_str("No input file specified"),
            FileError::CopyError(e) => {
                String::from_str("Failed to copy file: ").concat(e.description.as_str())
            },
            FileError::DeleteError(e) => {
                String::from_str("Failed to delete original file: ").concat(e.description.as_str())
            },
        }
    }
}

/// The three kinds of error read differently, and an operating-system error
/// is shown whole at the end of the text: two errors with one rendering are of
/// the same kind and wrap the same description.
pub proof fn lemma_rendering_distinguishes(a: FileError, b: FileError)
    requires
        a.rendering() == b.rendering(),
    ensures
        match (a, b) {
            (FileError::NoFileSpecified, FileError::NoFileSpecified) => true,
            (FileError::CopyError(x), FileError::CopyError(y)) => x@ == y@,
            (FileError::DeleteError(x), FileError::DeleteError(y)) => x@ == y@,
            _ => false,
        },
{
    reveal_strlit("No input file specified");
    reveal_strlit("Failed to copy file: ");
    reveal_strlit("Failed to delete original file: ");
    let text = a.rendering();
    let copy = "Failed to copy file: "@;
    let delete = "Failed to delete original file: "@;
    match (a, b) {
        (FileError::NoFileSpecified, FileError::NoFileSpecified) => {},
        (FileError::CopyError(x), FileError::CopyError(y)) => {
            assert(x@ =~= (copy + x@).subrange(copy.len() as int, text.len() as int));
            assert(y@ =~= (copy + y@).subrange(copy.len() as int, text.len() as int));
        },
        (FileError::DeleteError(x), FileError::DeleteError(y)) => {
            assert(x@ =~= (delete + x@).subrange(delete.len() as int, text.len() as int));
            assert(y@ =~= (delete + y@).subrange(delete.len() as int, text.len() as int));
        },
        (FileError::NoFileSpecified, FileError::CopyError(y)) => {
            assert(text[0] == 'N' && (copy + y@)[0] == 'F');
        },
        (FileError::NoFileSpecified, FileError::DeleteError(y)) => {
            assert(text[0] == 'N' && (delete + y@)[0] == 'F');
        },
        (FileError::CopyError(x), FileError::NoFileSpecified) => {
            assert(text[0] == 'N' && (copy + x@)[0] == 'F');
        },
        (FileError::DeleteError(x), FileError::NoFileSpecified) => {
            assert(text[0] == 'N' && (delete + x@)[0] == 'F');
        },
        (FileError::CopyError(x), FileError::DeleteError(y)) => {
            assert((copy + x@)[10] == 'c' && (delete + y@)[10] == 'd');
        },
        (FileError::DeleteError(x), FileError::CopyError(y)) => {
            assert((delete + x@)[10] == 'd' && (copy + y@)[10] == 'c');
        },
    }
}

} // verus!
