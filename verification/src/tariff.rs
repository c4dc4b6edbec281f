//! The two tariffs of a stream. They share the treatment of their duration
//! and description and differ in how the price is named: they are two
//! records, neither a special case of the other.

use vstd::prelude::*;
use crate::fault::{DecodeError, Flaw};
use crate::fields::{decode_span_at, span_at};
use crate::hub::{distinct_names, lemma_fit_record, obstacle};
use crate::span::{duration_text, Span};
use crate::text::same_text;
use crate::tree::{
    entry,
    field_from,
    lemma_record_is_kept,
    lemma_record_view,
    Node,
    Tree,
    without_nulls,
};

verus! {

/// The tariff that everyone is offered.
#[derive(Debug, Clone, PartialEq, Eq)]
pub struct PublicTariff {
    pub id: u32,
    pub price: u32,
    pub duration: Span,
    pub description: String,
}

/// The mathematical value of a public tariff.
pub struct PublicTariffView {
    pub id: u32,
    pub price: u32,
    pub duration: (u64, u32),
    pub description: Seq<char>,
}

impl View for PublicTariff {
    type V = PublicTariffView;

    open spec fn view(&self) -> PublicTariffView {
        PublicTariffView {
            id: self.id,
            price: self.price,
            duration: self.duration@,
            description: self.description@,
        }
    }
}

/// The tariff agreed with one client.
#[derive(Debug, Clone, PartialEq, Eq)]
pub struct PrivateTariff {
    pub client_price: u32,
    pub duration: Span,
    pub description: String,
}

/// The mathematical value of a private tariff.
pub struct PrivateTariffView {
    pub client_price: u32,
    pub duration: (u64, u32),
    pub description: Seq<char>,
}

impl View for PrivateTariff {
    type V = PrivateTariffView;

    open spec fn view(&self) -> PrivateTariffView {
        PrivateTariffView {
            client_price: self.client_price,
            duration: self.duration@,
            description: self.description@,
        }
    }
}

impl PublicTariffView {
    /// Whether the text of the duration reads back as the duration.
    pub open spec fn reads_back(self) -> bool {
        Span::reads_back(self.duration)
    }
}

impl PrivateTariffView {
    /// Whether the text of the duration reads back as the duration.
    pub open spec fn reads_back(self) -> bool {
        Span::reads_back(self.duration)
    }
}

impl PublicTariff {
    /// What decoding a tree gives: the tariff, or the failure of the first
    /// field, in the order `id`, `price`, `duration`, `description`, that is
    /// missing, has the wrong shape or is refused by its codec.
    pub open spec fn decoding(t: Tree) -> Result<PublicTariffView, Flaw> {
        let id = t.number_at("id"@);
        let price = t.number_at("price"@);
        let duration = span_at(t, "duration"@);
        let description = t.text_at("description"@);
        if id is Err {
            Err(id->Err_0)
        } else if price is Err {
            Err(price->Err_0)
        } else if duration is Err {
            Err(duration->Err_0)
        } else if description is Err {
            Err(description->Err_0)
        } else {
            Ok(
                PublicTariffView {
                    id: id->Ok_0,
                    price: price->Ok_0,
                    duration: duration->Ok_0,
                    description: description->Ok_0,
                },
            )
        }
    }

    /// The record that stands for a public tariff.
    pub open spec fn encoding(v: PublicTariffView) -> Tree {
        Tree::Record(
            seq![
                ("id"@, Tree::Int(v.id as int)),
                ("price"@, Tree::Int(v.price as int)),
                ("duration"@, Tree::Text(duration_text(v.duration.0, v.duration.1))),
                ("description"@, Tree::Text(v.description)),
            ],
        )
    }

    /// Decodes a public tariff from a record.
    pub fn decode(node: &Node) -> (r: Result<PublicTariff, DecodeError>)
        ensures
            match r {
                Ok(tariff) => PublicTariff::decoding(node@) == Ok::<PublicTariffView, Flaw>(tariff@),
                Err(e) => PublicTariff::decoding(node@) == Err::<PublicTariffView, Flaw>(e@),
            },
    {
        let id = match node.number_at("id") {
            Ok(v) => v,
            Err(e) => return Err(e),
        };
        let price = match node.number_at("price") {
            Ok(v) => v,
            Err(e) => return Err(e),
        };
        let duration = match decode_span_at(node, "duration") {
            Ok(v) => v,
            Err(e) => return Err(e),
        };
        let description = match node.text_at("description") {
            Ok(v) => v,
            Err(e) => return Err(e),
        };
        Ok(PublicTariff { id, price, duration, description: description.to_owned() })
    }

    /// Whether two tariffs are the same.
    pub fn same_as(&self, other: &PublicTariff) -> (same: bool)
        ensures
            same == (self@ == other@),
    {
        self.id == other.id && self.price == other.price && self.duration.same_as(&other.duration)
            && same_text(self.description.as_str(), other.description.as_str())
    }

    /// Encodes the tariff as a record, which decodes as the same tariff.
    pub fn encode(&self) -> (node: Node)
        ensures
            node@ == PublicTariff::encoding(self@),
            self@.reads_back(),
            PublicTariff::decoding(node@) == Ok::<PublicTariffView, Flaw>(self@),
    {
        let mut entries: Vec<(String, Node)> = Vec::new();
        entries.push(entry("id", Node::number(self.id)));
        entries.push(entry("price", Node::number(self.price)));
        entries.push(entry("duration", Node::text(self.duration.encode().as_str())));
        entries.push(entry("description", Node::text(self.description.as_str())));
        proof {
            lemma_record_view(entries);
            law_public_tariff_round_trip(self@);
        }
        let node = Node::Record(entries);
        assert(node@->Record_0 =~= PublicTariff::encoding(self@)->Record_0);
        node
    }
}

impl PrivateTariff {
    /// What decoding a tree gives: the tariff, or the failure of the first
    /// field, in the order `client_price`, `duration`, `description`, that is
    /// missing, has the wrong shape or is refused by its codec.
    pub open spec fn decoding(t: Tree) -> Result<PrivateTariffView, Flaw> {
        let client_price = t.number_at("client_price"@);
        let duration = span_at(t, "duration"@);
        let description = t.text_at("description"@);
        if client_price is Err {
            Err(client_price->Err_0)
        } else if duration is Err {
            Err(duration->Err_0)
        } else if description is Err {
            Err(description->Err_0)
        } else {
            Ok(
                PrivateTariffView {
                    client_price: client_price->Ok_0,
                    duration: duration->Ok_0,
                    description: description->Ok_0,
                },
            )
        }
    }

    /// The record that stands for a private tariff.
    pub open spec fn encoding(v: PrivateTariffView) -> Tree {
        Tree::Record(
            seq![
                ("client_price"@, Tree::Int(v.client_price as int)),
                ("duration"@, Tree::Text(duration_text(v.duration.0, v.duration.1))),
                ("description"@, Tree::Text(v.description)),
            ],
        )
    }

    /// Decodes a private tariff from a record.
    pub fn decode(node: &Node) -> (r: Result<PrivateTariff, DecodeError>)
        ensures
            match r {
                Ok(tariff) => PrivateTariff::decoding(node@) == Ok::<PrivateTariffView, Flaw>(
                    tariff@,
                ),
                Err(e) => PrivateTariff::decoding(node@) == Err::<PrivateTariffView, Flaw>(e@),
            },
    {
        let client_price = match node.number_at("client_price") {
            Ok(v) => v,
            Err(e) => return Err(e),
        };
        let duration = match decode_span_at(node, "duration") {
            Ok(v) => v,
            Err(e) => return Err(e),
        };
        let description = match node.text_at("description") {
            Ok(v) => v,
            Err(e) => return Err(e),
        };
        Ok(PrivateTariff { client_price, duration, description: description.to_owned() })
    }

    /// Whether two tariffs are the same.
    pub fn same_as(&self, other: &PrivateTariff) -> (same: bool)
        ensures
            same == (self@ == other@),
    {
        self.client_price == other.client_price && self.duration.same_as(&other.duration)
            && same_text(self.description.as_str(), other.description.as_str())
    }

    /// Encodes the tariff as a record, which decodes as the same tariff.
    pub fn encode(&self) -> (node: Node)
        ensures
            node@ == PrivateTariff::encoding(self@),
            self@.reads_back(),
            PrivateTariff::decoding(node@) == Ok::<PrivateTariffView, Flaw>(self@),
    {
        let mut entries: Vec<(String, Node)> = Vec::new();
        entries.push(entry("client_price", Node::number(self.client_price)));
        entries.push(entry("duration", Node::text(self.duration.encode().as_str())));
        entries.push(entry("description", Node::text(self.description.as_str())));
        proof {
            lemma_record_view(entries);
            law_private_tariff_round_trip(self@);
        }
        let node = Node::Record(entries);
        assert(node@->Record_0 =~= PrivateTariff::encoding(self@)->Record_0);
        node
    }
}

/// The names of the fields of a public tariff differ in length.
proof fn lemma_public_tariff_names()
    ensures
        "id"@.len() == 2,
        "price"@.len() == 5,
        "duration"@.len() == 8,
        "description"@.len() == 11,
{
    reveal_strlit("id");
    reveal_strlit("price");
    reveal_strlit("duration");
    reveal_strlit("description");
}

/// The names of the fields of a private tariff differ in length.
proof fn lemma_private_tariff_names()
    ensures
        "client_price"@.len() == 12,
        "duration"@.len() == 8,
        "description"@.len() == 11,
{
    reveal_strlit("client_price");
    reveal_strlit("duration");
    reveal_strlit("description");
}

/// A public tariff whose duration reads back from its text decodes from its
/// own encoding.
pub proof fn law_public_tariff_round_trip(v: PublicTariffView)
    requires
        v.reads_back(),
    ensures
        PublicTariff::decoding(PublicTariff::encoding(v)) == Ok::<PublicTariffView, Flaw>(v),
{
    lemma_public_tariff_names();
    reveal_with_fuel(field_from, 5);
}

/// A private tariff whose duration reads back from its text decodes from its
/// own encoding.
pub proof fn law_private_tariff_round_trip(v: PrivateTariffView)
    requires
        v.reads_back(),
    ensures
        PrivateTariff::decoding(PrivateTariff::encoding(v)) == Ok::<PrivateTariffView, Flaw>(v),
{
    lemma_private_tariff_names();
    reveal_with_fuel(field_from, 4);
}

/// Nothing in the encoding of a public tariff keeps it from a format, and it has no
/// field that holds nothing.
pub proof fn law_public_tariff_is_fit(v: PublicTariffView)
    ensures
        obstacle(PublicTariff::encoding(v)) is None,
        without_nulls(PublicTariff::encoding(v)) == PublicTariff::encoding(v),
{
    lemma_public_tariff_names();
    let entries = PublicTariff::encoding(v)->Record_0;
    assert(distinct_names(entries));
    lemma_fit_record(entries);
    lemma_record_is_kept(entries);
}

/// Nothing in the encoding of a private tariff keeps it from a format, and it has no
/// field that holds nothing.
pub proof fn law_private_tariff_is_fit(v: PrivateTariffView)
    ensures
        obstacle(PrivateTariff::encoding(v)) is None,
        without_nulls(PrivateTariff::encoding(v)) == PrivateTariff::encoding(v),
{
    lemma_private_tariff_names();
    let entries = PrivateTariff::encoding(v)->Record_0;
    assert(distinct_names(entries));
    lemma_fit_record(entries);
    lemma_record_is_kept(entries);
}

} // verus!
