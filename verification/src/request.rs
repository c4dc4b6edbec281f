//! A request: the document that the pipeline reads. It says how the work
//! ended, and carries the stream, the gifts in their order and the debug block.

use vstd::prelude::*;
use crate::debug::DebugView;
use crate::fault::{DecodeError, Flaw, Kind};
use crate::fields::{nested_at, read_at};
use crate::gift::{Gift, gift_views, GiftView, law_gift_is_fit, law_gift_round_trip};
use crate::hub::{distinct_names, lemma_fit_record, obstacle, obstacle_among};
use crate::instant::Timestamp;
use crate::locator::Locator;
use crate::stream::{Stream, StreamView};
use crate::text::same_text;
use crate::tree::{
    entry,
    field_from,
    lemma_list_is_kept,
    lemma_list_view,
    lemma_record_is_kept,
    lemma_record_view,
    Node,
    Tree,
    without_nulls,
};

verus! {

/// How the work ended. There are these two ways and no other.
#[derive(Debug, Clone, Copy, PartialEq, Eq, Structural)]
pub enum RequestType {
    Success,
    Failure,
}

impl RequestType {
    /// What reading a tag gives: `success` and `failure` name the two
    /// variants, and any other text names none.
    pub open spec fn decoding(tag: Seq<char>) -> Result<RequestType, Kind> {
        if tag == "success"@ {
            Ok(RequestType::Success)
        } else if tag == "failure"@ {
            Ok(RequestType::Failure)
        } else {
            Err(Kind::UnknownVariant)
        }
    }

    /// The tag of a variant.
    pub open spec fn encoding(self) -> Seq<char> {
        match self {
            RequestType::Success => "success"@,
            RequestType::Failure => "failure"@,
        }
    }

    /// Reads a tag.
    pub fn decode(tag: &str) -> (r: Result<RequestType, Kind>)
        ensures
            r == RequestType::decoding(tag@),
    {
        if same_text(tag, "success") {
            Ok(RequestType::Success)
        } else if same_text(tag, "failure") {
            Ok(RequestType::Failure)
        } else {
            Err(Kind::UnknownVariant)
        }
    }

    /// Writes the tag, which reads back as the same variant.
    pub fn encode(&self) -> (tag: &'static str)
        ensures
            tag@ == self.encoding(),
            RequestType::decoding(tag@) == Ok::<RequestType, Kind>(*self),
    {
        proof {
            law_tag_round_trip(*self);
        }
        match self {
            RequestType::Success => "success",
            RequestType::Failure => "failure",
        }
    }
}

/// A variant reads back from its own tag.
pub proof fn law_tag_round_trip(tag: RequestType)
    ensures
        RequestType::decoding(tag.encoding()) == Ok::<RequestType, Kind>(tag),
{
    reveal_strlit("success");
    reveal_strlit("failure");
    assert("success"@[0] == 's' && "failure"@[0] == 'f');
}

/// A request.
#[derive(Debug, Clone, PartialEq, Eq)]
pub struct Request {
    pub request_type: RequestType,
    pub stream: Stream,
    pub gifts: Vec<Gift>,
    pub debug: crate::debug::Debug,
}

/// The mathematical value of a request.
pub struct RequestView {
    pub request_type: RequestType,
    pub stream: StreamView,
    pub gifts: Seq<GiftView>,
    pub debug: DebugView,
}

impl View for Request {
    type V = RequestView;

    open spec fn view(&self) -> RequestView {
        RequestView {
            request_type: self.request_type,
            stream: self.stream@,
            gifts: gift_views(self.gifts@),
            debug: self.debug@,
        }
    }
}

impl RequestView {
    /// Whether the stream and the debug block are as every one in memory is.
    pub open spec fn valid(self) -> bool {
        self.stream.valid() && self.debug.valid()
    }

    /// Whether every text that a codec writes for this request reads back
    /// as the value it was written for.
    pub open spec fn reads_back(self) -> bool {
        self.stream.reads_back() && self.debug.reads_back()
    }
}

/// What decoding the first `n` items of a sequence as gifts gives: the
/// gifts in their order, or the failure of the first item that fails, seen
/// from the sequence.
pub open spec fn gifts_upto(items: Seq<Tree>, n: int) -> Result<Seq<GiftView>, Flaw>
    decreases n,
{
    if n <= 0 {
        Ok(Seq::empty())
    } else {
        match gifts_upto(items, n - 1) {
            Err(flaw) => Err(flaw),
            Ok(before) => match Gift::decoding(items[n - 1]) {
                Ok(gift) => Ok(before.push(gift)),
                Err(flaw) => Err(flaw.in_item(n - 1)),
            },
        }
    }
}

/// What decoding a tree as a sequence of gifts gives. Anything but a
/// sequence is malformed.
pub open spec fn gifts_decoding(t: Tree) -> Result<Seq<GiftView>, Flaw> {
    match t {
        Tree::List(items) => gifts_upto(items, items.len() as int),
        _ => Err(Flaw::here(Kind::MalformedStructure)),
    }
}

/// The sequence that stands for gifts: their records, in their order.
pub open spec fn gifts_encoding(gifts: Seq<GiftView>) -> Tree {
    Tree::List(gift_records(gifts))
}

/// The records of gifts, in their order.
pub open spec fn gift_records(gifts: Seq<GiftView>) -> Seq<Tree> {
    gifts.map_values(|g: GiftView| Gift::encoding(g))
}

/// A failure among the first items is the failure of the whole sequence.
proof fn lemma_gifts_failure_stays(items: Seq<Tree>, k: int, n: int)
    requires
        0 <= k <= n,
        gifts_upto(items, k) is Err,
    ensures
        gifts_upto(items, n) == gifts_upto(items, k),
    decreases n - k,
{
    if k < n {
        lemma_gifts_failure_stays(items, k, n - 1);
    }
}

/// Gifts decode from their own encoding, as far as one looks.
proof fn lemma_gifts_round_trip(gifts: Seq<GiftView>, n: int)
    requires
        0 <= n <= gifts.len(),
    ensures
        gifts_upto(gift_records(gifts), n) == Ok::<
            Seq<GiftView>,
            Flaw,
        >(gifts.take(n)),
    decreases n,
{
    if n > 0 {
        lemma_gifts_round_trip(gifts, n - 1);
        law_gift_round_trip(gifts[n - 1]);
        assert(gifts.take(n - 1).push(gifts[n - 1]) =~= gifts.take(n));
    } else {
        assert(gifts.take(0) =~= Seq::<GiftView>::empty());
    }
}

/// Decodes a sequence of gifts, keeping their order.
pub fn decode_gifts(node: &Node) -> (r: Result<Vec<Gift>, DecodeError>)
    ensures
        match r {
            Ok(gifts) => gifts_decoding(node@) == Ok::<Seq<GiftView>, Flaw>(
                gift_views(gifts@),
            ),
            Err(e) => gifts_decoding(node@) == Err::<Seq<GiftView>, Flaw>(e@),
        },
{
    match node {
        Node::List(items) => {
            let ghost shown = node@->List_0;
            proof {
                lemma_list_view(*items);
            }
            let mut gifts: Vec<Gift> = Vec::new();
            let mut i: usize = 0;
            assert(gift_views(gifts@) =~= Seq::<GiftView>::empty());
            while i < items.len()
                invariant
                    i <= items.len(),
                    node@ == Tree::List(shown),
                    shown.len() == items@.len(),
                    forall|j: int| 0 <= j < items@.len() ==> #[trigger] shown[j] == items@[j]@,
                    gifts_upto(shown, i as int) == Ok::<Seq<GiftView>, Flaw>(
                        gift_views(gifts@),
                    ),
                decreases items.len() - i,
            {
                let ghost before = gift_views(gifts@);
                assert(shown[i as int] == items@[i as int]@);
                match Gift::decode(&items[i]) {
                    Ok(gift) => {
                        gifts.push(gift);
                        assert(gift_views(gifts@) =~= before.push(gift@));
                    },
                    Err(e) => {
                        proof {
                            assert(gifts_upto(shown, i + 1) is Err);
                            lemma_gifts_failure_stays(shown, i + 1, shown.len() as int);
                        }
                        return Err(e.in_item(i));
                    },
                }
                i += 1;
            }
            Ok(gifts)
        },
        _ => Err(DecodeError::here(Kind::MalformedStructure)),
    }
}

/// Encodes gifts as a sequence of their records, in their order.
pub fn encode_gifts(gifts: &Vec<Gift>) -> (node: Node)
    ensures
        node@ == gifts_encoding(gift_views(gifts@)),
        gifts_decoding(node@) == Ok::<Seq<GiftView>, Flaw>(gift_views(gifts@)),
{
    let ghost views = gift_views(gifts@);
    let mut items: Vec<Node> = Vec::new();
    let mut i: usize = 0;
    while i < gifts.len()
        invariant
            i <= gifts.len(),
            items@.len() == i,
            views == gift_views(gifts@),
            forall|j: int| 0 <= j < i ==> (#[trigger] items@[j])@ == Gift::encoding(views[j]),
        decreases gifts.len() - i,
    {
        let item = gifts[i].encode();
        items.push(item);
        i += 1;
    }
    proof {
        lemma_list_view(items);
        lemma_gifts_round_trip(views, views.len() as int);
        assert(views.take(views.len() as int) =~= views);
    }
    let node = Node::List(items);
    assert(node@->List_0 =~= gift_records(views));
    node
}

/// Whether two sequences hold the same gifts in the same order.
pub fn same_gifts(a: &Vec<Gift>, b: &Vec<Gift>) -> (same: bool)
    ensures
        same == (gift_views(a@) == gift_views(b@)),
{
    if a.len() != b.len() {
        assert(gift_views(a@).len() != gift_views(b@).len());
        return false;
    }
    let mut i: usize = 0;
    while i < a.len()
        invariant
            i <= a.len(),
            a.len() == b.len(),
            forall|k: int| 0 <= k < i ==> a@[k]@ == b@[k]@,
        decreases a.len() - i,
    {
        if !a[i].same_as(&b[i]) {
            assert(gift_views(a@)[i as int] != gift_views(b@)[i as int]);
            return false;
        }
        i += 1;
    }
    assert(gift_views(a@) =~= gift_views(b@));
    true
}

impl Request {
    /// Whether two requests are the same.
    pub fn same_as(&self, other: &Request) -> (same: bool)
        ensures
            same == (self@ == other@),
    {
        self.request_type == other.request_type && self.stream.same_as(&other.stream)
            && same_gifts(&self.gifts, &other.gifts) && self.debug.same_as(&other.debug)
    }

    /// What decoding a tree gives: the request, or the failure of the first
    /// field, in the order `type`, `stream`, `gifts`, `debug`, that is
    /// missing, has the wrong shape, holds an unknown tag or is refused by a
    /// codec. The failure carries the path to the value that caused it.
    pub open spec fn decoding(t: Tree) -> Result<RequestView, Flaw> {
        let request_type = read_at(t, "type"@, |tag: Seq<char>| RequestType::decoding(tag));
        let stream = nested_at(t, "stream"@, |v: Tree| Stream::decoding(v));
        let gifts = nested_at(t, "gifts"@, |v: Tree| gifts_decoding(v));
        let debug = nested_at(t, "debug"@, |v: Tree| crate::debug::Debug::decoding(v));
        if request_type is Err {
            Err(request_type->Err_0)
        } else if stream is Err {
            Err(stream->Err_0)
        } else if gifts is Err {
            Err(gifts->Err_0)
        } else if debug is Err {
            Err(debug->Err_0)
        } else {
            Ok(
                RequestView {
                    request_type: request_type->Ok_0,
                    stream: stream->Ok_0,
                    gifts: gifts->Ok_0,
                    debug: debug->Ok_0,
                },
            )
        }
    }

    /// The record that stands for a request.
    pub open spec fn encoding(v: RequestView) -> Tree {
        Tree::Record(
            seq![
                ("type"@, Tree::Text(v.request_type.encoding())),
                ("stream"@, Stream::encoding(v.stream)),
                ("gifts"@, gifts_encoding(v.gifts)),
                ("debug"@, crate::debug::Debug::encoding(v.debug)),
            ],
        )
    }

    /// Decodes a request from a record: all of it, or nothing.
    pub fn decode(node: &Node) -> (r: Result<Request, DecodeError>)
        ensures
            match r {
                Ok(request) => Request::decoding(node@) == Ok::<RequestView, Flaw>(request@)
                    && request@.valid(),
                Err(e) => Request::decoding(node@) == Err::<RequestView, Flaw>(e@),
            },
    {
        let tag = match node.text_at("type") {
            Ok(v) => v,
            Err(e) => return Err(e),
        };
        let request_type = match RequestType::decode(tag) {
            Ok(v) => v,
            Err(kind) => return Err(DecodeError::at(kind, "type")),
        };
        let stream_node = match node.member("stream") {
            Ok(v) => v,
            Err(e) => return Err(e),
        };
        let stream = match Stream::decode(stream_node) {
            Ok(v) => v,
            Err(e) => return Err(e.in_field("stream")),
        };
        let gifts_node = match node.member("gifts") {
            Ok(v) => v,
            Err(e) => return Err(e),
        };
        let gifts = match decode_gifts(gifts_node) {
            Ok(v) => v,
            Err(e) => return Err(e.in_field("gifts")),
        };
        let debug_node = match node.member("debug") {
            Ok(v) => v,
            Err(e) => return Err(e),
        };
        let debug = match crate::debug::Debug::decode(debug_node) {
            Ok(v) => v,
            Err(e) => return Err(e.in_field("debug")),
        };
        Ok(Request { request_type, stream, gifts, debug })
    }

    /// Encodes the request as a record. Where the locator is its own normal
    /// form and the text of the instant reads back as the instant, the
    /// record decodes as the same request.
    pub fn encode(&self) -> (node: Node)
        ensures
            self@.valid(),
            node@ == Request::encoding(self@),
            Locator::reads_back(self@.stream.shard_url) && Timestamp::reads_back(self@.debug.at)
                ==> self@.reads_back() && Request::decoding(node@) == Ok::<RequestView, Flaw>(
                self@,
            ),
    {
        let mut entries: Vec<(String, Node)> = Vec::new();
        entries.push(entry("type", Node::text(self.request_type.encode())));
        entries.push(entry("stream", self.stream.encode()));
        entries.push(entry("gifts", encode_gifts(&self.gifts)));
        entries.push(entry("debug", self.debug.encode()));
        proof {
            lemma_record_view(entries);
            if Locator::reads_back(self@.stream.shard_url) && Timestamp::reads_back(
                self@.debug.at,
            ) {
                law_request_round_trip(self@);
            }
        }
        let node = Node::Record(entries);
        assert(node@->Record_0 =~= Request::encoding(self@)->Record_0);
        node
    }
}

proof fn lemma_request_names()
    ensures
        "type"@.len() == 4,
        "stream"@.len() == 6,
        "gifts"@.len() == 5,
        "debug"@.len() == 5,
        "gifts"@[0] == 'g',
        "debug"@[0] == 'd',
{
    reveal_strlit("type");
    reveal_strlit("stream");
    reveal_strlit("gifts");
    reveal_strlit("debug");
}

/// A request whose codec texts read back decodes from its own encoding.
pub proof fn law_request_round_trip(v: RequestView)
    requires
        v.valid(),
        v.reads_back(),
    ensures
        Request::decoding(Request::encoding(v)) == Ok::<RequestView, Flaw>(v),
{
    lemma_request_names();
    reveal_with_fuel(field_from, 5);
    law_tag_round_trip(v.request_type);
    crate::stream::law_stream_round_trip(v.stream);
    crate::debug::law_debug_round_trip(v.debug);
    lemma_gifts_round_trip(v.gifts, v.gifts.len() as int);
    assert(v.gifts.take(v.gifts.len() as int) =~= v.gifts);
    let t = Request::encoding(v);
    assert(t.member("type"@) == Ok::<Tree, Flaw>(Tree::Text(v.request_type.encoding())));
    assert(t.member("stream"@) == Ok::<Tree, Flaw>(Stream::encoding(v.stream)));
    assert(t.member("gifts"@) == Ok::<Tree, Flaw>(gifts_encoding(v.gifts)));
    assert(t.member("debug"@) == Ok::<Tree, Flaw>(crate::debug::Debug::encoding(v.debug)));
}

/// A request whose `type` is a text other than `success` and `failure` is
/// refused as an unknown variant, whatever else it holds.
pub proof fn law_request_refuses_unknown_tag(t: Tree, tag: Seq<char>)
    requires
        t.text_at("type"@) == Ok::<Seq<char>, Flaw>(tag),
        tag != "success"@,
        tag != "failure"@,
    ensures
        Request::decoding(t) == Err::<RequestView, Flaw>(Flaw::at(Kind::UnknownVariant, "type"@)),
{
}

/// Nothing among the records of gifts keeps them from a format.
proof fn lemma_gifts_are_fit(gifts: Seq<GiftView>, n: int)
    requires
        0 <= n <= gifts.len(),
    ensures
        obstacle_among(gift_records(gifts), n) is None,
    decreases n,
{
    if n > 0 {
        lemma_gifts_are_fit(gifts, n - 1);
        law_gift_is_fit(gifts[n - 1]);
    }
}

/// The sequence of gifts holds no field to leave out.
proof fn lemma_gifts_are_kept(gifts: Seq<GiftView>)
    ensures
        without_nulls(gifts_encoding(gifts)) == gifts_encoding(gifts),
{
    assert forall|i: int| 0 <= i < gift_records(gifts).len() implies without_nulls(
        #[trigger] gift_records(gifts)[i],
    ) == gift_records(gifts)[i] by {
        law_gift_is_fit(gifts[i]);
    }
    lemma_list_is_kept(gift_records(gifts));
}

/// Nothing in the encoding of a request keeps it from a format: no number
/// has a fraction or goes beyond 64 bits, and no record has a name twice. Nor
/// has it a field that holds nothing, so TOML is handed all of it.
pub proof fn law_request_is_fit(v: RequestView)
    ensures
        obstacle(Request::encoding(v)) is None,
        without_nulls(Request::encoding(v)) == Request::encoding(v),
{
    lemma_request_names();
    crate::stream::law_stream_is_fit(v.stream);
    crate::debug::law_debug_is_fit(v.debug);
    lemma_gifts_are_fit(v.gifts, v.gifts.len() as int);
    lemma_gifts_are_kept(v.gifts);
    let entries = Request::encoding(v)->Record_0;
    assert(distinct_names(entries));
    lemma_fit_record(entries);
    lemma_record_is_kept(entries);
}

} // verus!
