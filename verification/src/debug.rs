//! The debug block of a request: how long the work took, and when.

use vstd::prelude::*;
use crate::fault::{DecodeError, Flaw};
use crate::fields::{decode_span_at, decode_timestamp_at, span_at, timestamp_at};
use crate::hub::{distinct_names, lemma_fit_record, obstacle};
use crate::instant::{Timestamp, timestamp_text};
use crate::span::{duration_text, Span};
use crate::tree::{
    entry,
    field_from,
    lemma_record_is_kept,
    lemma_record_view,
    Node,
    Tree,
    without_nulls,
};

verus! {

/// The debug block.
#[derive(Debug, Clone, PartialEq, Eq)]
pub struct Debug {
    pub duration: Span,
    pub at: Timestamp,
}

/// The mathematical value of a debug block.
pub struct DebugView {
    pub duration: (u64, u32),
    pub at: (i64, u32),
}

impl View for Debug {
    type V = DebugView;

    open spec fn view(&self) -> DebugView {
        DebugView { duration: self.duration@, at: self.at@ }
    }
}

impl DebugView {
    /// Whether the instant has a text, as every instant in memory has.
    pub open spec fn valid(self) -> bool {
        timestamp_text(self.at.0, self.at.1) is Some
    }

    /// Whether the texts of the duration and of the instant read back as
    /// the duration and the instant.
    pub open spec fn reads_back(self) -> bool {
        &&& Span::reads_back(self.duration)
        &&& Timestamp::reads_back(self.at)
    }
}

impl Debug {
    /// What decoding a tree gives: the block, or the failure of the first
    /// field, in the order `duration`, `at`, that is missing, is no text or
    /// is refused by its codec.
    pub open spec fn decoding(t: Tree) -> Result<DebugView, Flaw> {
        let duration = span_at(t, "duration"@);
        let at = timestamp_at(t, "at"@);
        if duration is Err {
            Err(duration->Err_0)
        } else if at is Err {
            Err(at->Err_0)
        } else {
            Ok(DebugView { duration: duration->Ok_0, at: at->Ok_0 })
        }
    }

    /// The record that stands for a debug block.
    pub open spec fn encoding(v: DebugView) -> Tree {
        Tree::Record(
            seq![
                ("duration"@, Tree::Text(duration_text(v.duration.0, v.duration.1))),
                ("at"@, Tree::Text(Timestamp::encoding(v.at))),
            ],
        )
    }

    /// Decodes a debug block from a record.
    pub fn decode(node: &Node) -> (r: Result<Debug, DecodeError>)
        ensures
            match r {
                Ok(debug) => Debug::decoding(node@) == Ok::<DebugView, Flaw>(debug@)
                    && debug@.valid(),
                Err(e) => Debug::decoding(node@) == Err::<DebugView, Flaw>(e@),
            },
    {
        let duration = match decode_span_at(node, "duration") {
            Ok(v) => v,
            Err(e) => return Err(e),
        };
        let at = match decode_timestamp_at(node, "at") {
            Ok(v) => v,
            Err(e) => return Err(e),
        };
        Ok(Debug { duration, at })
    }

    /// Whether two debug blocks are the same.
    pub fn same_as(&self, other: &Debug) -> (same: bool)
        ensures
            same == (self@ == other@),
    {
        self.duration.same_as(&other.duration) && self.at.same_as(&other.at)
    }

    /// Encodes the block as a record. Where the text of the instant reads
    /// back as the instant, the record decodes as the same block.
    pub fn encode(&self) -> (node: Node)
        ensures
            self@.valid(),
            node@ == Debug::encoding(self@),
            Timestamp::reads_back(self@.at) ==> self@.reads_back() && Debug::decoding(node@) == Ok::<
                DebugView,
                Flaw,
            >(self@),
    {
        let mut entries: Vec<(String, Node)> = Vec::new();
        entries.push(entry("duration", Node::text(self.duration.encode().as_str())));
        entries.push(entry("at", Node::text(self.at.encode().as_str())));
        proof {
            lemma_record_view(entries);
            if self@.reads_back() {
                law_debug_round_trip(self@);
            }
        }
        let node = Node::Record(entries);
        assert(node@->Record_0 =~= Debug::encoding(self@)->Record_0);
        node
    }
}

/// The names of the fields of a debug block differ in length.
proof fn lemma_debug_names()
    ensures
        "duration"@.len() == 8,
        "at"@.len() == 2,
{
    reveal_strlit("duration");
    reveal_strlit("at");
}

/// A debug block whose duration and instant read back from their texts
/// decodes from its own encoding.
pub proof fn law_debug_round_trip(v: DebugView)
    requires
        v.reads_back(),
    ensures
        Debug::decoding(Debug::encoding(v)) == Ok::<DebugView, Flaw>(v),
{
    lemma_debug_names();
    reveal_with_fuel(field_from, 3);
}

/// Nothing in the encoding of a debug block keeps it from a format, and it has no
/// field that holds nothing.
pub proof fn law_debug_is_fit(v: DebugView)
    ensures
        obstacle(Debug::encoding(v)) is None,
        without_nulls(Debug::encoding(v)) == Debug::encoding(v),
{
    lemma_debug_names();
    let entries = Debug::encoding(v)->Record_0;
    assert(distinct_names(entries));
    lemma_fit_record(entries);
    lemma_record_is_kept(entries);
}

} // verus!
