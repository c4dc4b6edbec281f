//! An event: a document of its own, whose date goes through the field
//! transform codec.

use vstd::prelude::*;
use crate::fault::{DecodeError, Flaw};
use crate::fields::{date_at, decode_date_at};
use crate::hub::{distinct_names, lemma_fit_record, obstacle};
use crate::transform::{law_date_round_trip, serialize_date, tagged};
use crate::tree::{
    entry,
    field_from,
    lemma_record_is_kept,
    lemma_record_view,
    Node,
    Tree,
    without_nulls,
};

verus! {

/// An event. The date is held without the tag that it carries on the wire.
#[derive(Debug, Clone, PartialEq, Eq)]
pub struct Event {
    pub name: String,
    pub date: String,
}

/// The mathematical value of an event.
pub struct EventView {
    pub name: Seq<char>,
    pub date: Seq<char>,
}

impl View for Event {
    type V = EventView;

    open spec fn view(&self) -> EventView {
        EventView { name: self.name@, date: self.date@ }
    }
}

impl Event {
    /// What decoding a tree gives: the event, its date without the tag, or
    /// the failure of the first field, in the order `name`, `date`, that is
    /// missing or is no text.
    pub open spec fn decoding(t: Tree) -> Result<EventView, Flaw> {
        let name = t.text_at("name"@);
        let date = date_at(t, "date"@);
        if name is Err {
            Err(name->Err_0)
        } else if date is Err {
            Err(date->Err_0)
        } else {
            Ok(EventView { name: name->Ok_0, date: date->Ok_0 })
        }
    }

    /// The record that stands for an event, its date under the tag.
    pub open spec fn encoding(v: EventView) -> Tree {
        Tree::Record(seq![("name"@, Tree::Text(v.name)), ("date"@, Tree::Text(tagged(v.date)))])
    }

    /// Decodes an event from a record.
    pub fn decode(node: &Node) -> (r: Result<Event, DecodeError>)
        ensures
            match r {
                Ok(event) => Event::decoding(node@) == Ok::<EventView, Flaw>(event@),
                Err(e) => Event::decoding(node@) == Err::<EventView, Flaw>(e@),
            },
    {
        let name = match node.text_at("name") {
            Ok(v) => v,
            Err(e) => return Err(e),
        };
        let date = match decode_date_at(node, "date") {
            Ok(v) => v,
            Err(e) => return Err(e),
        };
        Ok(Event { name: name.to_owned(), date })
    }

    /// Encodes the event as a record, which decodes as the same event.
    pub fn encode(&self) -> (node: Node)
        ensures
            node@ == Event::encoding(self@),
            Event::decoding(node@) == Ok::<EventView, Flaw>(self@),
    {
        let mut entries: Vec<(String, Node)> = Vec::new();
        entries.push(entry("name", Node::text(self.name.as_str())));
        entries.push(entry("date", Node::text(serialize_date(self.date.as_str()).as_str())));
        proof {
            lemma_record_view(entries);
            law_event_round_trip(self@);
        }
        let node = Node::Record(entries);
        assert(node@->Record_0 =~= Event::encoding(self@)->Record_0);
        node
    }
}

/// The names of the fields of an event differ in their first letter.
proof fn lemma_event_names()
    ensures
        "name"@.len() == 4,
        "date"@.len() == 4,
        "name"@[0] == 'n',
        "date"@[0] == 'd',
{
    reveal_strlit("name");
    reveal_strlit("date");
}

/// An event decodes from its own encoding, whatever its date holds.
pub proof fn law_event_round_trip(v: EventView)
    ensures
        Event::decoding(Event::encoding(v)) == Ok::<EventView, Flaw>(v),
{
    lemma_event_names();
    reveal_with_fuel(field_from, 3);
    law_date_round_trip(v.date);
}

/// Nothing in the encoding of an event keeps it from a format, and it has no
/// field that holds nothing.
pub proof fn law_event_is_fit(v: EventView)
    ensures
        obstacle(Event::encoding(v)) is None,
        without_nulls(Event::encoding(v)) == Event::encoding(v),
{
    lemma_event_names();
    let entries = Event::encoding(v)->Record_0;
    assert(distinct_names(entries));
    lemma_fit_record(entries);
    lemma_record_is_kept(entries);
}

} // verus!
