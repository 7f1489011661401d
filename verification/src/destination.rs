//! Where the copy of a file goes.

use vstd::prelude::*;
use vstd::string::*;

verus! {

/// Where the copy of `file` goes: the path itself, taken verbatim, between a
/// fixed directory prefix and a fixed suffix.
pub open spec fn destination_of(file: Seq<char>) -> Seq<char> {
    "/tmp/"@ + file + "_copy"@
}

/// Derives the destination path for `file`.
pub fn destination_path(file: &str) -> (to: String)
    ensures
        to@ == destination_of(file@),
{
    String::from_str("/tmp/").concat(file).concat("_copy")
}

/// The destination is longer than the path by the ten characters of the fixed
/// prefix and suffix, and differs for any two paths that differ.
pub proof fn lemma_destination_keeps_path(file: Seq<char>, other: Seq<char>)
    ensures
        destination_of(file).len() == file.len() + 10,
        destination_of(file) == destination_of(other) ==> file == other,
{
    reveal_strlit("/tmp/");
    reveal_strlit("_copy");
    assert(destination_of(file).subrange(5, 5 + file.len() as int) =~= file);
    assert(destination_of(other).subrange(5, 5 + other.len() as int) =~= other);
}

} // verus!
