use vstd::prelude::*;
use vstd::utf8::encode_utf8;

verus! {

/// The length that `len` reports for a string with characters `s`: the
/// number of bytes of its UTF-8 encoding (which, for a string held in memory,
/// fits in a `usize`).
pub open spec fn byte_len(s: Seq<char>) -> usize {
    encode_utf8(s).len() as usize
}

/// Reads the length of a borrowed string, leaving it with its owner.
pub fn calculate_length(s: &String) -> (r: usize)
    ensures
        r == byte_len(s@),
{
    s.as_str().len()
}

/// Appends `", world"` through a mutable borrow.
pub fn change(some_string: &mut String)
    ensures
        final(some_string)@ == old(some_string)@ + ", world"@,
{
    some_string.append(", world");
}

/// Returns an owned string rather than a reference to a local.
pub fn no_dangle() -> (r: String)
    ensures
        r@ == "hello"@,
{
    String::from_str("hello")
}

/// The longer of two borrowed strings, by byte length; `y` when neither is
/// longer.
pub fn longest<'a>(x: &'a String, y: &'a String) -> (r: &'a String)
    ensures
        r == (if byte_len(x@) > byte_len(y@) {
            x
        } else {
            y
        }),
{
    if x.as_str().len() > y.as_str().len() {
        x
    } else {
        y
    }
}

/// Doubles every element in place, through mutable borrows of the elements.
pub fn double_in_place(v: &mut Vec<i32>)
    requires
        forall|i: int|
            0 <= i < old(v)@.len() ==> i32::MIN <= 2 * #[trigger] old(v)@[i] <= i32::MAX,
    ensures
        final(v)@.len() == old(v)@.len(),
        forall|i: int| 0 <= i < old(v)@.len() ==> #[trigger] final(v)@[i] == 2 * old(v)@[i],
{
    let ghost start = v@;
    let mut i: usize = 0;
    while i < v.len()
        invariant
            v@.len() == start.len(),
            0 <= i <= v@.len(),
            forall|k: int| 0 <= k < i ==> #[trigger] v@[k] == 2 * start[k],
            forall|k: int| i <= k < v@.len() ==> #[trigger] v@[k] == start[k],
            forall|k: int| 0 <= k < start.len() ==> i32::MIN <= 2 * #[trigger] start[k] <= i32::MAX,
        decreases v@.len() - i,
    {
        let doubled = v[i] * 2;
        v.set(i, doubled);
        i += 1;
    }
}

} // verus!
