//! The fields of a record that go through a codec. A codec is attached to a
//! field by the field's name: the text in the field is read by the codec, and
//! a refusal is reported at the field.

use vstd::prelude::*;
use crate::fault::{DecodeError, Flaw, Kind, within_field};
use crate::ident::Identifier;
use crate::instant::{Timestamp, timestamp_text};
use crate::locator::Locator;
use crate::span::Span;
use crate::transform::{deserialize_date, untagged};
use crate::tree::{Node, Tree};

verus! {

/// What a codec makes of the text in the field `name`.
pub open spec fn read_at<T>(t: Tree, name: Seq<char>, read: spec_fn(Seq<char>) -> Result<T, Kind>) -> Result<
    T,
    Flaw,
> {
    match t.text_at(name) {
        Ok(text) => match read(text) {
            Ok(value) => Ok(value),
            Err(kind) => Err(Flaw::at(kind, name)),
        },
        Err(flaw) => Err(flaw),
    }
}

/// What a decoder makes of the value in the field `name`; a failure inside
/// the value is reported from the record that holds it.
pub open spec fn nested_at<T>(t: Tree, name: Seq<char>, decode: spec_fn(Tree) -> Result<T, Flaw>) -> Result<
    T,
    Flaw,
> {
    match t.member(name) {
        Ok(value) => within_field(decode(value), name),
        Err(flaw) => Err(flaw),
    }
}

/// The elapsed time in the field `name`.
pub open spec fn span_at(t: Tree, name: Seq<char>) -> Result<(u64, u32), Flaw> {
    read_at(t, name, |text: Seq<char>| Span::decoding(text))
}

/// The instant in the field `name`.
pub open spec fn timestamp_at(t: Tree, name: Seq<char>) -> Result<(i64, u32), Flaw> {
    read_at(t, name, |text: Seq<char>| Timestamp::decoding(text))
}

/// The identifier in the field `name`.
pub open spec fn identifier_at(t: Tree, name: Seq<char>) -> Result<Seq<u8>, Flaw> {
    read_at(t, name, |text: Seq<char>| Identifier::decoding(text))
}

/// The locator in the field `name`.
pub open spec fn locator_at(t: Tree, name: Seq<char>) -> Result<Seq<char>, Flaw> {
    read_at(t, name, |text: Seq<char>| Locator::decoding(text))
}

/// The date in the field `name`, without the tag that it may carry.
pub open spec fn date_at(t: Tree, name: Seq<char>) -> Result<Seq<char>, Flaw> {
    read_at(t, name, |text: Seq<char>| Ok::<Seq<char>, Kind>(untagged(text)))
}

/// Reads the date in the field `name`.
pub fn decode_date_at(node: &Node, name: &str) -> (r: Result<String, DecodeError>)
    ensures
        match r {
            Ok(date) => date_at(node@, name@) == Ok::<Seq<char>, Flaw>(date@),
            Err(e) => date_at(node@, name@) == Err::<Seq<char>, Flaw>(e@),
        },
{
    match node.text_at(name) {
        Ok(text) => Ok(deserialize_date(text)),
        Err(e) => Err(e),
    }
}

/// Reads the elapsed time in the field `name`.
pub fn decode_span_at(node: &Node, name: &str) -> (r: Result<Span, DecodeError>)
    ensures
        match r {
            Ok(span) => span_at(node@, name@) == Ok::<(u64, u32), Flaw>(span@),
            Err(e) => span_at(node@, name@) == Err::<(u64, u32), Flaw>(e@),
        },
{
    let text = match node.text_at(name) {
        Ok(text) => text,
        Err(e) => return Err(e),
    };
    match Span::decode(text) {
        Ok(span) => Ok(span),
        Err(kind) => Err(DecodeError::at(kind, name)),
    }
}

/// Reads the instant in the field `name`.
pub fn decode_timestamp_at(node: &Node, name: &str) -> (r: Result<Timestamp, DecodeError>)
    ensures
        match r {
            Ok(at) => timestamp_at(node@, name@) == Ok::<(i64, u32), Flaw>(at@) && timestamp_text(
                at@.0,
                at@.1,
            ) is Some,
            Err(e) => timestamp_at(node@, name@) == Err::<(i64, u32), Flaw>(e@),
        },
{
    let text = match node.text_at(name) {
        Ok(text) => text,
        Err(e) => return Err(e),
    };
    match Timestamp::decode(text) {
        Ok(at) => Ok(at),
        Err(kind) => Err(DecodeError::at(kind, name)),
    }
}

/// Reads the identifier in the field `name`.
pub fn decode_identifier_at(node: &Node, name: &str) -> (r: Result<Identifier, DecodeError>)
    ensures
        match r {
            Ok(id) => identifier_at(node@, name@) == Ok::<Seq<u8>, Flaw>(id@),
            Err(e) => identifier_at(node@, name@) == Err::<Seq<u8>, Flaw>(e@),
        },
{
    let text = match node.text_at(name) {
        Ok(text) => text,
        Err(e) => return Err(e),
    };
    match Identifier::decode(text) {
        Ok(id) => Ok(id),
        Err(kind) => Err(DecodeError::at(kind, name)),
    }
}

/// Reads the locator in the field `name`.
pub fn decode_locator_at(node: &Node, name: &str) -> (r: Result<Locator, DecodeError>)
    ensures
        match r {
            Ok(locator) => locator_at(node@, name@) == Ok::<Seq<char>, Flaw>(locator@),
            Err(e) => locator_at(node@, name@) == Err::<Seq<char>, Flaw>(e@),
        },
{
    let text = match node.text_at(name) {
        Ok(text) => text,
        Err(e) => return Err(e),
    };
    match Locator::decode(text) {
        Ok(locator) => Ok(locator),
        Err(kind) => Err(DecodeError::at(kind, name)),
    }
}

} // verus!
