use vstd::prelude::*;

verus! {

/// Appends a note to a string through a mutable borrow; the caller keeps
/// ownership.
pub fn mutably_borrows_string(some_string: &mut String)
    ensures
        final(some_string)@ == old(some_string)@ + " (mutably borrowed)"@,
{
    some_string.append(" (mutably borrowed)");
}

} // verus!
