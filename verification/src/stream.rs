//! A stream: whose it is, where its shard is, and the two tariffs it is
//! offered at. Both tariffs are always there, whether the stream is private or
//! not.

use vstd::prelude::*;
use crate::fault::{DecodeError, Flaw, Kind};
use crate::fields::{decode_identifier_at, decode_locator_at, identifier_at, locator_at, nested_at};
use crate::hub::{distinct_names, lemma_fit_record, obstacle};
use crate::ident::{canonical, Identifier, identifier_text, law_identifier_bytes_round_trip};
use crate::locator::{Locator, locator_normal_form};
use crate::tariff::{
    law_private_tariff_is_fit,
    law_private_tariff_round_trip,
    law_public_tariff_is_fit,
    law_public_tariff_round_trip,
    PrivateTariff,
    PrivateTariffView,
    PublicTariff,
    PublicTariffView,
};
use crate::tree::{
    entry,
    field_from,
    lemma_record_is_kept,
    lemma_record_view,
    Node,
    Tree,
    without_nulls,
};

verus! {

/// A stream.
#[derive(Debug, Clone, PartialEq, Eq)]
pub struct Stream {
    pub user_id: Identifier,
    pub is_private: bool,
    /// A mask of bits, taken as it comes.
    pub settings: u32,
    pub shard_url: Locator,
    pub public_tariff: PublicTariff,
    pub private_tariff: PrivateTariff,
}

/// The mathematical value of a stream.
pub struct StreamView {
    pub user_id: Seq<u8>,
    pub is_private: bool,
    pub settings: u32,
    pub shard_url: Seq<char>,
    pub public_tariff: PublicTariffView,
    pub private_tariff: PrivateTariffView,
}

impl View for Stream {
    type V = StreamView;

    open spec fn view(&self) -> StreamView {
        StreamView {
            user_id: self.user_id@,
            is_private: self.is_private,
            settings: self.settings,
            shard_url: self.shard_url@,
            public_tariff: self.public_tariff@,
            private_tariff: self.private_tariff@,
        }
    }
}

impl StreamView {
    /// Whether the identifier has its sixteen bytes, as every identifier in
    /// memory has.
    pub open spec fn valid(self) -> bool {
        self.user_id.len() == 16
    }

    /// Whether the locator is its own normal form, and the durations of
    /// both tariffs read back from their texts.
    pub open spec fn reads_back(self) -> bool {
        &&& Locator::reads_back(self.shard_url)
        &&& self.public_tariff.reads_back()
        &&& self.private_tariff.reads_back()
    }
}

impl Stream {
    /// What decoding a tree gives: the stream, or the failure of the first
    /// field, in the order `user_id`, `is_private`, `settings`, `shard_url`,
    /// `public_tariff`, `private_tariff`, that is missing, has the wrong
    /// shape or is refused by its codec.
    pub open spec fn decoding(t: Tree) -> Result<StreamView, Flaw> {
        let user_id = identifier_at(t, "user_id"@);
        let is_private = t.flag_at("is_private"@);
        let settings = t.number_at("settings"@);
        let shard_url = locator_at(t, "shard_url"@);
        let public_tariff = nested_at(t, "public_tariff"@, |v: Tree| PublicTariff::decoding(v));
        let private_tariff = nested_at(t, "private_tariff"@, |v: Tree| PrivateTariff::decoding(v));
        if user_id is Err {
            Err(user_id->Err_0)
        } else if is_private is Err {
            Err(is_private->Err_0)
        } else if settings is Err {
            Err(settings->Err_0)
        } else if shard_url is Err {
            Err(shard_url->Err_0)
        } else if public_tariff is Err {
            Err(public_tariff->Err_0)
        } else if private_tariff is Err {
            Err(private_tariff->Err_0)
        } else {
            Ok(
                StreamView {
                    user_id: user_id->Ok_0,
                    is_private: is_private->Ok_0,
                    settings: settings->Ok_0,
                    shard_url: shard_url->Ok_0,
                    public_tariff: public_tariff->Ok_0,
                    private_tariff: private_tariff->Ok_0,
                },
            )
        }
    }

    /// The record that stands for a stream.
    pub open spec fn encoding(v: StreamView) -> Tree {
        Tree::Record(
            seq![
                ("user_id"@, Tree::Text(identifier_text(v.user_id))),
                ("is_private"@, Tree::Bool(v.is_private)),
                ("settings"@, Tree::Int(v.settings as int)),
                ("shard_url"@, Tree::Text(v.shard_url)),
                ("public_tariff"@, PublicTariff::encoding(v.public_tariff)),
                ("private_tariff"@, PrivateTariff::encoding(v.private_tariff)),
            ],
        )
    }

    /// Decodes a stream from a record.
    pub fn decode(node: &Node) -> (r: Result<Stream, DecodeError>)
        ensures
            match r {
                Ok(stream) => Stream::decoding(node@) == Ok::<StreamView, Flaw>(stream@)
                    && stream@.valid(),
                Err(e) => Stream::decoding(node@) == Err::<StreamView, Flaw>(e@),
            },
    {
        let user_id = match decode_identifier_at(node, "user_id") {
            Ok(v) => v,
            Err(e) => return Err(e),
        };
        let is_private = match node.flag_at("is_private") {
            Ok(v) => v,
            Err(e) => return Err(e),
        };
        let settings = match node.number_at("settings") {
            Ok(v) => v,
            Err(e) => return Err(e),
        };
        let shard_url = match decode_locator_at(node, "shard_url") {
            Ok(v) => v,
            Err(e) => return Err(e),
        };
        let public_node = match node.member("public_tariff") {
            Ok(v) => v,
            Err(e) => return Err(e),
        };
        let public_tariff = match PublicTariff::decode(public_node) {
            Ok(v) => v,
            Err(e) => return Err(e.in_field("public_tariff")),
        };
        let private_node = match node.member("private_tariff") {
            Ok(v) => v,
            Err(e) => return Err(e),
        };
        let private_tariff = match PrivateTariff::decode(private_node) {
            Ok(v) => v,
            Err(e) => return Err(e.in_field("private_tariff")),
        };
        Ok(Stream { user_id, is_private, settings, shard_url, public_tariff, private_tariff })
    }

    /// Whether two streams are the same.
    pub fn same_as(&self, other: &Stream) -> (same: bool)
        ensures
            same == (self@ == other@),
    {
        self.user_id.same_as(&other.user_id) && self.is_private == other.is_private
            && self.settings == other.settings && self.shard_url.same_as(&other.shard_url)
            && self.public_tariff.same_as(&other.public_tariff) && self.private_tariff.same_as(
            &other.private_tariff,
        )
    }

    /// Encodes the stream as a record. Where the locator is its own normal
    /// form, the record decodes as the same stream.
    pub fn encode(&self) -> (node: Node)
        ensures
            self@.valid(),
            node@ == Stream::encoding(self@),
            Locator::reads_back(self@.shard_url) ==> self@.reads_back() && Stream::decoding(node@)
                == Ok::<StreamView, Flaw>(self@),
    {
        let mut entries: Vec<(String, Node)> = Vec::new();
        entries.push(entry("user_id", Node::text(self.user_id.encode().as_str())));
        entries.push(entry("is_private", Node::Bool(self.is_private)));
        entries.push(entry("settings", Node::number(self.settings)));
        entries.push(entry("shard_url", Node::text(self.shard_url.as_str())));
        entries.push(entry("public_tariff", self.public_tariff.encode()));
        entries.push(entry("private_tariff", self.private_tariff.encode()));
        proof {
            lemma_record_view(entries);
            if Locator::reads_back(self@.shard_url) {
                law_stream_round_trip(self@);
            }
        }
        let node = Node::Record(entries);
        assert(node@->Record_0 =~= Stream::encoding(self@)->Record_0);
        node
    }
}

proof fn lemma_stream_names()
    ensures
        "user_id"@.len() == 7,
        "is_private"@.len() == 10,
        "settings"@.len() == 8,
        "shard_url"@.len() == 9,
        "public_tariff"@.len() == 13,
        "private_tariff"@.len() == 14,
{
    reveal_strlit("user_id");
    reveal_strlit("is_private");
    reveal_strlit("settings");
    reveal_strlit("shard_url");
    reveal_strlit("public_tariff");
    reveal_strlit("private_tariff");
}

/// A stream whose locator and durations read back from their texts decodes
/// from its own encoding.
pub proof fn law_stream_round_trip(v: StreamView)
    requires
        v.valid(),
        v.reads_back(),
    ensures
        Stream::decoding(Stream::encoding(v)) == Ok::<StreamView, Flaw>(v),
{
    lemma_stream_names();
    reveal_with_fuel(field_from, 7);
    law_identifier_bytes_round_trip(v.user_id);
    law_public_tariff_round_trip(v.public_tariff);
    law_private_tariff_round_trip(v.private_tariff);
    let t = Stream::encoding(v);
    assert(t.member("user_id"@) == Ok::<Tree, Flaw>(Tree::Text(identifier_text(v.user_id))));
    assert(t.member("is_private"@) == Ok::<Tree, Flaw>(Tree::Bool(v.is_private)));
    assert(t.member("settings"@) == Ok::<Tree, Flaw>(Tree::Int(v.settings as int)));
    assert(t.member("shard_url"@) == Ok::<Tree, Flaw>(Tree::Text(v.shard_url)));
    assert(t.member("public_tariff"@) == Ok::<Tree, Flaw>(PublicTariff::encoding(v.public_tariff)));
    assert(t.member("private_tariff"@) == Ok::<Tree, Flaw>(
        PrivateTariff::encoding(v.private_tariff),
    ));
}

/// A stream whose `user_id` is a text, but no identifier in canonical form,
/// is refused as an invalid identifier, whatever else it holds.
pub proof fn law_stream_refuses_identifier(t: Tree, text: Seq<char>)
    requires
        t.text_at("user_id"@) == Ok::<Seq<char>, Flaw>(text),
        !canonical(text),
    ensures
        Stream::decoding(t) == Err::<StreamView, Flaw>(
            Flaw::at(Kind::InvalidIdentifier, "user_id"@),
        ),
{
}

/// A stream whose `shard_url` is a text, but no absolute URL, is refused as
/// an invalid locator, where the fields before it are in order.
pub proof fn law_stream_refuses_locator(t: Tree, text: Seq<char>)
    requires
        identifier_at(t, "user_id"@) is Ok,
        t.flag_at("is_private"@) is Ok,
        t.number_at("settings"@) is Ok,
        t.text_at("shard_url"@) == Ok::<Seq<char>, Flaw>(text),
        locator_normal_form(text) is None,
    ensures
        Stream::decoding(t) == Err::<StreamView, Flaw>(Flaw::at(Kind::InvalidUrl, "shard_url"@)),
{
}

/// Nothing in the encoding of a stream keeps it from a format, and it has no
/// field that holds nothing.
pub proof fn law_stream_is_fit(v: StreamView)
    ensures
        obstacle(Stream::encoding(v)) is None,
        without_nulls(Stream::encoding(v)) == Stream::encoding(v),
{
    lemma_stream_names();
    law_public_tariff_is_fit(v.public_tariff);
    law_private_tariff_is_fit(v.private_tariff);
    let entries = Stream::encoding(v)->Record_0;
    assert(distinct_names(entries));
    lemma_fit_record(entries);
    lemma_record_is_kept(entries);
}

} // verus!
