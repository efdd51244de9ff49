//! Small helpers on strings, read as sequences of characters.

use vstd::prelude::*;
use vstd::std_specs::iter::IteratorSpec;

verus! {

broadcast use vstd::string::group_string_axioms;

/// `text` begins with `prefix`.
pub open spec fn has_prefix(text: Seq<char>, prefix: Seq<char>) -> bool {
    prefix.len() <= text.len() && text.subrange(0, prefix.len() as int) == prefix
}

/// The characters of `text`, in order.
pub fn chars_of(text: &str) -> (chars: Vec<char>)
    ensures
        chars@ == text@,
{
    let mut chars: Vec<char> = Vec::new();
    for c in steps: text.chars()
        invariant
            steps.seq() == text@,
            chars@ == text@.subrange(0, steps.index()),
    {
        chars.push(c);
    }
    chars
}

/// Whether `text` begins with `prefix`.
pub fn starts_with(text: &str, prefix: &str) -> (r: bool)
    ensures
        r == has_prefix(text@, prefix@),
{
    let text_chars = chars_of(text);
    let prefix_chars = chars_of(prefix);
    if prefix_chars.len() > text_chars.len() {
        return false;
    }
    let mut i: usize = 0;
    while i < prefix_chars.len()
        invariant
            text_chars@ == text@,
            prefix_chars@ == prefix@,
            i <= prefix_chars.len() <= text_chars.len(),
            text_chars@.subrange(0, i as int) == prefix_chars@.subrange(0, i as int),
        decreases prefix_chars.len() - i,
    {
        if text_chars[i] != prefix_chars[i] {
            return false;
        }
        i += 1;
    }
    assert(prefix_chars@.subrange(0, i as int) =~= prefix_chars@);
    true
}

} // verus!
