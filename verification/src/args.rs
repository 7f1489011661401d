//! Resolution of the input path from the invocation's arguments.

use vstd::prelude::*;
use crate::error::FileError;

verus! {

/// The first positional argument of an invocation, if one was given. The
/// argument at index 0 is the program's own name and is passed over.
pub open spec fn first_positional(args: Seq<String>) -> Option<String> {
    if args.len() >= 2 {
        Some(args[1])
    } else {
        None
    }
}

/// Picks the file to relocate out of the argument list of an invocation, given
/// as the program's name followed by the positional arguments. Without a
/// positional argument there is no input: `NoFileSpecified`.
pub fn get_input_file(args: &[String]) -> (r: Result<String, FileError>)
    ensures
        match first_positional(args@) {
            Some(file) => r == Ok::<String, FileError>(file),
            None => r == Err::<String, FileError>(FileError::NoFileSpecified),
        },
{
    if args.len() >= 2 {
        Ok(args[1].clone())
    } else {
        Err(FileError::NoFileSpecified)
    }
}

} // verus!
