//! The field transform codec: a reversible tag in front of a date.
//!
//! On the wire the date of an event carries a fixed tag; in memory it does
//! not. Reading is lenient: a wire text without the tag is taken as it stands.

use vstd::prelude::*;
use vstd::string::StringExecFns;
use crate::text::{begins_with, tail_from};

verus! {

/// The tag that stands in front of a date on the wire.
pub open spec fn tag() -> Seq<char> {
    seq!['D', 'a', 't', 'e', ':', ' ']
}

/// The wire form of a date: the tag, then the date.
pub open spec fn tagged(date: Seq<char>) -> Seq<char> {
    tag() + date
}

/// The date that a wire text stands for: the text without the tag where it
/// begins with the tag, else the text itself.
pub open spec fn untagged(wire: Seq<char>) -> Seq<char> {
    if tag().is_prefix_of(wire) {
        wire.subrange(tag().len() as int, wire.len() as int)
    } else {
        wire
    }
}

proof fn tag_is_spelled_out()
    ensures
        "Date: "@ == tag(),
{
    reveal_strlit("Date: ");
    assert("Date: "@ =~= tag());
}

/// Puts the tag in front of a date.
pub fn serialize_date(date: &str) -> (wire: String)
    ensures
        wire@ == tagged(date@),
{
    proof {
        tag_is_spelled_out();
    }
    String::from_str("Date: ").concat(date)
}

/// Takes the tag off a wire text that begins with it, and hands any other
/// text back unchanged.
pub fn deserialize_date(wire: &str) -> (date: String)
    ensures
        date@ == untagged(wire@),
{
    proof {
        tag_is_spelled_out();
    }
    if begins_with(wire, "Date: ") {
        tail_from(wire, 6)
    } else {
        wire.to_owned()
    }
}

/// Writing a date and reading it back gives the date again, whatever the date
/// holds.
pub proof fn law_date_round_trip(date: Seq<char>)
    ensures
        untagged(tagged(date)) == date,
{
    assert(tagged(date).subrange(0, tag().len() as int) =~= tag());
    assert(tagged(date).subrange(tag().len() as int, tagged(date).len() as int) =~= date);
}

/// A wire text without the tag is read as it stands.
pub proof fn law_untagged_is_lenient(wire: Seq<char>)
    requires
        !tag().is_prefix_of(wire),
    ensures
        untagged(wire) == wire,
{
}

} // verus!
