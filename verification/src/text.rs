//! Small operations on text that the codecs share.

use vstd::prelude::*;
use vstd::string::StrSliceExecFns;

verus! {

/// Whether two texts hold the same characters.
pub fn same_text(a: &str, b: &str) -> (same: bool)
    ensures
        same == (a@ == b@),
{
    let left = a.to_owned();
    let right = b.to_owned();
    left == right
}

/// The characters of a text, one by one.
pub fn chars_of(text: &str) -> (chars: Vec<char>)
    ensures
        chars@ == text@,
{
    let mut chars: Vec<char> = Vec::new();
    for c in it: text.chars()
        invariant
            it.seq() == text@,
            chars@ == it.seq().take(it.index() as int),
    {
        chars.push(c);
        assert(it.seq().take(it.index() + 1) =~= it.seq().take(it.index() as int).push(c));
    }
    assert(chars@ =~= text@);
    chars
}

/// Whether `text` begins with `prefix`.
pub fn begins_with(text: &str, prefix: &str) -> (found: bool)
    ensures
        found == prefix@.is_prefix_of(text@),
{
    let wanted = prefix.unicode_len();
    let given = text.unicode_len();
    if given < wanted {
        false
    } else {
        let head = text.substring_char(0, wanted);
        same_text(head, prefix)
    }
}

/// The part of `text` from character `from` on; nothing where the text is
/// shorter.
pub fn tail_from(text: &str, from: usize) -> (rest: String)
    ensures
        from <= text@.len() ==> rest@ == text@.subrange(from as int, text@.len() as int),
        from > text@.len() ==> rest@ == Seq::<char>::empty(),
{
    let given = text.unicode_len();
    if from <= given {
        text.substring_char(from, given).to_owned()
    } else {
        String::new()
    }
}

} // verus!
