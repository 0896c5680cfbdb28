use vstd::prelude::*;
use crate::ch02_borrowing::byte_len;

verus! {

/// The longer of two string slices, by byte length; `y` when neither is
/// longer. The result borrows from the same data as the arguments.
pub fn longest<'a>(x: &'a str, y: &'a str) -> (r: &'a str)
    ensures
        r == (if byte_len(x@) > byte_len(y@) {
            x
        } else {
            y
        }),
{
    if x.len() > y.len() {
        x
    } else {
        y
    }
}

/// A part of a longer text, borrowed from it.
pub struct ImportantExcerpt<'a> {
    pub part: &'a str,
}

impl<'a> ImportantExcerpt<'a> {
    pub fn level(&self) -> (r: i32)
        ensures
            r == 3,
    {
        3
    }
}

/// The characters of `s` before its first `'.'`; all of `s` when it holds
/// none.
pub open spec fn before_first_dot(s: Seq<char>) -> Seq<char>
    decreases s.len(),
{
    if s.len() == 0 || s[0] == '.' {
        Seq::empty()
    } else {
        seq![s[0]] + before_first_dot(s.drop_first())
    }
}

/// The first sentence of a text: the slice before its first `'.'`, borrowed
/// from the text.
pub fn first_sentence<'a>(text: &'a str) -> (r: &'a str)
    ensures
        r@ == before_first_dot(text@),
{
    let n = text.unicode_len();
    let mut i: usize = 0;
    while i < n
        invariant
            n == text@.len(),
            0 <= i <= n,
            forall|k: int| 0 <= k < i ==> text@[k] != '.',
        ensures
            0 <= i <= n,
            forall|k: int| 0 <= k < i ==> text@[k] != '.',
            i == n || text@[i as int] == '.',
        decreases n - i,
    {
        if text.get_char(i) == '.' {
            break;
        }
        i += 1;
    }
    proof {
        lemma_before_first_dot(text@, i as int);
    }
    text.substring_char(0, i)
}

/// When `s[..i]` holds no `'.'` and `s[i]` is one, or `i` is the end of `s`,
/// the first sentence is `s[..i]`.
proof fn lemma_before_first_dot(s: Seq<char>, i: int)
    requires
        0 <= i <= s.len(),
        forall|k: int| 0 <= k < i ==> s[k] != '.',
        i == s.len() || s[i] == '.',
    ensures
        before_first_dot(s) == s.subrange(0, i),
    decreases i,
{
    if i == 0 {
        assert(s.subrange(0, 0) =~= Seq::<char>::empty());
    } else {
        lemma_before_first_dot(s.drop_first(), i - 1);
        assert(s.subrange(0, i) =~= seq![s[0]] + s.drop_first().subrange(0, i - 1));
    }
}

/// Reads the length of a string slice; its lifetime is elided.
pub fn calculate_length(s: &str) -> (r: usize)
    ensures
        r == byte_len(s@),
{
    s.len()
}

/// Two coordinates borrowed with independent lifetimes.
pub struct Point<'a, 'b> {
    pub x: &'a i32,
    pub y: &'b i32,
}

/// Returns a string literal, which lives for the whole program.
pub fn static_lifetime() -> (r: &'static str)
    ensures
        r@ == "This string has a 'static lifetime"@,
{
    "This string has a 'static lifetime"
}

/// A message and its data, borrowed with different lifetimes.
pub struct Announcer<'message, 'data> {
    pub message: &'message str,
    pub data: &'data str,
}

/// A value that can describe itself in one line while it borrows data of
/// lifetime `'a`.
pub trait PrintWithLifetime<'a> {
    /// The line that describes the value.
    spec fn spec_line(&self) -> Seq<char>;

    fn line(&self) -> (r: String)
        ensures
            r@ == self.spec_line(),
    ;
}

/// Borrows a string slice and describes it.
pub struct LifetimePrinter<'a> {
    pub s: &'a str,
}

impl<'a> PrintWithLifetime<'a> for LifetimePrinter<'a> {
    open spec fn spec_line(&self) -> Seq<char> {
        "Printing with lifetime: "@ + self.s@
    }

    fn line(&self) -> (r: String) {
        String::from_str("Printing with lifetime: ").concat(self.s)
    }
}

} // verus!
