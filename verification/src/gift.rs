//! A gift: one item of the catalogue that a request carries.

use vstd::prelude::*;
use crate::fault::{DecodeError, Flaw};
use crate::hub::{distinct_names, lemma_fit_record, obstacle};
use crate::text::same_text;
use crate::tree::{field_from, entry, lemma_record_is_kept, lemma_record_view, Node, Tree, without_nulls};

verus! {

/// A gift.
#[derive(Debug, Clone, PartialEq, Eq)]
pub struct Gift {
    pub id: u32,
    pub price: u32,
    pub description: String,
}

/// The mathematical value of a gift.
pub struct GiftView {
    pub id: u32,
    pub price: u32,
    pub description: Seq<char>,
}

impl View for Gift {
    type V = GiftView;

    open spec fn view(&self) -> GiftView {
        GiftView { id: self.id, price: self.price, description: self.description@ }
    }
}

/// The mathematical values of gifts in their order.
pub open spec fn gift_views(gifts: Seq<Gift>) -> Seq<GiftView> {
    gifts.map_values(|g: Gift| g@)
}

impl Gift {
    /// What decoding a tree gives: the gift, or the failure of the first
    /// field, in the order `id`, `price`, `description`, that is missing or
    /// has the wrong shape.
    pub open spec fn decoding(t: Tree) -> Result<GiftView, Flaw> {
        let id = t.number_at("id"@);
        let price = t.number_at("price"@);
        let description = t.text_at("description"@);
        if id is Err {
            Err(id->Err_0)
        } else if price is Err {
            Err(price->Err_0)
        } else if description is Err {
            Err(description->Err_0)
        } else {
            Ok(GiftView { id: id->Ok_0, price: price->Ok_0, description: description->Ok_0 })
        }
    }

    /// The record that stands for a gift.
    pub open spec fn encoding(g: GiftView) -> Tree {
        Tree::Record(
            seq![
                ("id"@, Tree::Int(g.id as int)),
                ("price"@, Tree::Int(g.price as int)),
                ("description"@, Tree::Text(g.description)),
            ],
        )
    }

    /// Decodes a gift from a record. Fields that the schema does not name
    /// are passed over.
    pub fn decode(node: &Node) -> (r: Result<Gift, DecodeError>)
        ensures
            match r {
                Ok(gift) => Gift::decoding(node@) == Ok::<GiftView, Flaw>(gift@),
                Err(e) => Gift::decoding(node@) == Err::<GiftView, Flaw>(e@),
            },
    {
        let id = match node.number_at("id") {
            Ok(v) => v,
            Err(e) => return Err(e),
        };
        let price = match node.number_at("price") {
            Ok(v) => v,
            Err(e) => return Err(e),
        };
        let description = match node.text_at("description") {
            Ok(v) => v,
            Err(e) => return Err(e),
        };
        Ok(Gift { id, price, description: description.to_owned() })
    }

    /// Whether two gifts are the same.
    pub fn same_as(&self, other: &Gift) -> (same: bool)
        ensures
            same == (self@ == other@),
    {
        self.id == other.id && self.price == other.price && same_text(
            self.description.as_str(),
            other.description.as_str(),
        )
    }

    /// Encodes the gift as a record.
    pub fn encode(&self) -> (node: Node)
        ensures
            node@ == Gift::encoding(self@),
    {
        let mut entries: Vec<(String, Node)> = Vec::new();
        entries.push(entry("id", Node::number(self.id)));
        entries.push(entry("price", Node::number(self.price)));
        entries.push(entry("description", Node::text(self.description.as_str())));
        proof {
            lemma_record_view(entries);
        }
        let node = Node::Record(entries);
        assert(node@->Record_0 =~= Gift::encoding(self@)->Record_0);
        node
    }
}

/// The names of the fields of a gift differ in length.
proof fn lemma_gift_names()
    ensures
        "id"@.len() == 2,
        "price"@.len() == 5,
        "description"@.len() == 11,
{
    reveal_strlit("id");
    reveal_strlit("price");
    reveal_strlit("description");
}

/// A gift decodes from its own encoding.
pub proof fn law_gift_round_trip(g: GiftView)
    ensures
        Gift::decoding(Gift::encoding(g)) == Ok::<GiftView, Flaw>(g),
{
    lemma_gift_names();
    reveal_with_fuel(field_from, 4);
}

/// Nothing in the encoding of a gift keeps it from a format, and it has no
/// field that holds nothing.
pub proof fn law_gift_is_fit(g: GiftView)
    ensures
        obstacle(Gift::encoding(g)) is None,
        without_nulls(Gift::encoding(g)) == Gift::encoding(g),
{
    lemma_gift_names();
    let entries = Gift::encoding(g)->Record_0;
    assert(distinct_names(entries));
    lemma_fit_record(entries);
    lemma_record_is_kept(entries);
}

} // verus!
