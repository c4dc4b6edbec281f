//! The bridge between the record tree and the document model of
//! `serde_json`, which all three formats are read into and written from.
//!
//! The outside model is taken apart and put together one level at a time;
//! going down the levels is this module's own work.

use vstd::prelude::*;
use crate::fault::Obstacle;
use crate::text::same_text;
use crate::tree::{lemma_list_view, lemma_record_view, Node, Tree};

verus! {

/// `serde_json::Value`, the document model. Nothing inside it is seen from
/// here but through the functions below.
#[verifier::external_type_specification]
#[verifier::external_body]
pub struct ExJsonValue(serde_json::Value);

/// `serde_json::Number`, the number of the document model.
#[verifier::external_type_specification]
#[verifier::external_body]
pub struct ExJsonNumber(serde_json::Number);

/// What a `serde_json::Value` holds, as a record tree: an object's members
/// in the order in which the object hands them out.
pub uninterp spec fn json_tree(v: serde_json::Value) -> Tree;

/// The whole number that a `serde_json::Number` holds; `None` where it
/// holds a floating-point number.
pub uninterp spec fn number_integer(n: serde_json::Number) -> Option<i128>;

/// The text that a `serde_json::Number` prints as.
pub uninterp spec fn number_text(n: serde_json::Number) -> Seq<char>;

/// What `serde_json::Number` reads from a text: the whole number that the
/// number it read holds, if it holds one, and the text that it prints as;
/// `None` where it refuses the text.
pub uninterp spec fn number_reading(text: Seq<char>) -> Option<(Option<i128>, Seq<char>)>;

/// Whether a text is the spelling of a number with a fraction or an
/// exponent: the document model reads such a number from it and prints the
/// number as this very text.
pub open spec fn spells_a_real(text: Seq<char>) -> bool {
    number_reading(text) == Some((None::<i128>, text))
}

/// The tree of a number: the whole number, or the text of any other.
pub(crate) open spec fn number_tree(n: serde_json::Number) -> Tree {
    match number_integer(n) {
        Some(i) => Tree::Int(i as int),
        None => Tree::Real(number_text(n)),
    }
}

/// The trees of outside values, in their order.
pub(crate) open spec fn json_trees(items: Seq<serde_json::Value>) -> Seq<Tree> {
    items.map_values(|v: serde_json::Value| json_tree(v))
}

/// The names and trees of outside members, in their order.
pub(crate) open spec fn json_members(entries: Seq<(String, serde_json::Value)>) -> Seq<(Seq<char>, Tree)> {
    entries.map_values(|e: (String, serde_json::Value)| (e.0@, json_tree(e.1)))
}

/// One level of a document: the variant and its fields, the children still
/// in the outside form.
pub(crate) enum Shell {
    Null,
    Bool(bool),
    Number(serde_json::Number),
    Text(String),
    List(Vec<serde_json::Value>),
    Record(Vec<(String, serde_json::Value)>),
}

impl Shell {
    /// The tree of a level.
    pub(crate) open spec fn tree(self) -> Tree {
        match self {
            Shell::Null => Tree::Null,
            Shell::Bool(b) => Tree::Bool(b),
            Shell::Number(n) => number_tree(n),
            Shell::Text(s) => Tree::Text(s@),
            Shell::List(items) => Tree::List(json_trees(items@)),
            Shell::Record(entries) => Tree::Record(json_members(entries@)),
        }
    }
}

/// Whether no two entries have one name.
pub open spec fn distinct_names(entries: Seq<(Seq<char>, Tree)>) -> bool {
    forall|i: int, j: int| 0 <= i < j < entries.len() ==> entries[i].0 != entries[j].0
}

/// A match on the variants of `serde_json::Value` that moves the fields
/// out, the members of an object in the order of its iterator. Claimed of it:
/// the level and its children make up what the value held.
#[verifier::external_body]
fn json_unfold(v: serde_json::Value) -> (shell: Shell)
    ensures
        shell.tree() == json_tree(v),
{
    match v {
        serde_json::Value::Null => Shell::Null,
        serde_json::Value::Bool(b) => Shell::Bool(b),
        serde_json::Value::Number(n) => Shell::Number(n),
        serde_json::Value::String(s) => Shell::Text(s),
        serde_json::Value::Array(items) => Shell::List(items),
        serde_json::Value::Object(map) => Shell::Record(map.into_iter().collect()),
    }
}

/// The variants of `serde_json::Value`, built from the fields of a level;
/// the members of an object are collected into a `serde_json::Map`, which
/// keeps the order of insertion. Claimed of it: with no name twice, the value
/// holds the level and its children.
#[verifier::external_body]
fn json_fold(shell: Shell) -> (v: serde_json::Value)
    requires
        shell is Record ==> distinct_names(json_members(shell->Record_0@)),
    ensures
        json_tree(v) == shell.tree(),
{
    match shell {
        Shell::Null => serde_json::Value::Null,
        Shell::Bool(b) => serde_json::Value::Bool(b),
        Shell::Number(n) => serde_json::Value::Number(n),
        Shell::Text(s) => serde_json::Value::String(s),
        Shell::List(items) => serde_json::Value::Array(items),
        Shell::Record(entries) => serde_json::Value::Object(entries.into_iter().collect()),
    }
}

/// `serde_json::Number::as_i128`.
#[verifier::external_body]
fn number_as_integer(n: &serde_json::Number) -> (r: Option<i128>)
    ensures
        r == number_integer(*n),
{
    n.as_i128()
}

/// `Display` of `serde_json::Number`.
#[verifier::external_body]
fn number_as_text(n: &serde_json::Number) -> (r: String)
    ensures
        r@ == number_text(*n),
{
    n.to_string()
}

/// `serde_json::Number::from_i128`. Claimed of it: a number from -2^63 to
/// 2^64 - 1 is held as that whole number, and no other number is held.
#[verifier::external_body]
fn number_from_integer(i: i128) -> (r: Option<serde_json::Number>)
    ensures
        match r {
            Some(n) => i64::MIN <= i <= u64::MAX && number_integer(n) == Some(i),
            None => !(i64::MIN <= i <= u64::MAX),
        },
{
    serde_json::Number::from_i128(i)
}

/// `FromStr` of `serde_json::Number`. Claimed of it: whether the text is
/// accepted, and what the number holds and prints as, depend on the text
/// alone.
#[verifier::external_body]
fn number_from_text(text: &str) -> (r: Option<serde_json::Number>)
    ensures
        match r {
            Some(n) => number_reading(text@) == Some((number_integer(n), number_text(n))),
            None => number_reading(text@) is None,
        },
{
    text.parse::<serde_json::Number>().ok()
}

/// Turns an outside value into a record tree, level by level.
pub(crate) fn lift(v: serde_json::Value) -> (node: Node)
    ensures
        node@ == json_tree(v),
    decreases json_tree(v),
{
    match json_unfold(v) {
        Shell::Null => Node::Null,
        Shell::Bool(b) => Node::Bool(b),
        Shell::Number(n) => match number_as_integer(&n) {
            Some(i) => Node::Int(i),
            None => Node::Real(number_as_text(&n)),
        },
        Shell::Text(s) => Node::Text(s),
        Shell::List(items) => {
            let ghost all = items@;
            let mut out: Vec<Node> = Vec::new();
            for item in it: items
                invariant
                    it.seq() == all,
                    out@.len() == it.index(),
                    forall|i: int| 0 <= i < out@.len() ==> (#[trigger] out@[i])@ == json_tree(all[i]),
                    json_tree(v) == Tree::List(json_trees(all)),
            {
                assert(json_tree(v)->List_0[it.index() as int] == json_tree(item));
                out.push(lift(item));
            }
            proof {
                lemma_list_view(out);
            }
            let node = Node::List(out);
            assert(node@->List_0 =~= json_trees(all));
            node
        },
        Shell::Record(entries) => {
            let ghost all = entries@;
            let mut out: Vec<(String, Node)> = Vec::new();
            for member in it: entries
                invariant
                    it.seq() == all,
                    out@.len() == it.index(),
                    forall|i: int|
                        0 <= i < out@.len() ==> (#[trigger] out@[i]).0@ == all[i].0@ && out@[i].1@
                            == json_tree(all[i].1),
                    json_tree(v) == Tree::Record(json_members(all)),
            {
                assert(json_tree(v)->Record_0[it.index() as int].1 == json_tree(member.1));
                let (name, child) = member;
                out.push((name, lift(child)));
            }
            proof {
                lemma_record_view(out);
            }
            let node = Node::Record(out);
            assert(node@->Record_0 =~= json_members(all));
            node
        },
    }
}

/// The first thing among the first `n` items that keeps them from a format,
/// if anything does.
pub open spec fn obstacle_among(items: Seq<Tree>, n: int) -> Option<Obstacle>
    decreases items, n,
{
    if n <= 0 || n > items.len() {
        None
    } else {
        match obstacle_among(items, n - 1) {
            Some(o) => Some(o),
            None => obstacle(items[n - 1]),
        }
    }
}

/// The first thing among the values of the first `n` entries that keeps
/// them from a format, if anything does.
pub open spec fn obstacle_within(entries: Seq<(Seq<char>, Tree)>, n: int) -> Option<Obstacle>
    decreases entries, n,
{
    if n <= 0 || n > entries.len() {
        None
    } else {
        match obstacle_within(entries, n - 1) {
            Some(o) => Some(o),
            None => obstacle(entries[n - 1].1),
        }
    }
}

/// The first thing that keeps a tree from a format, going through it from
/// the top and from the left: a number with a fraction in a spelling that is
/// not its own, a whole number beyond 64 bits, or a record with one name on
/// two fields (found before anything inside that record). `None` for a tree
/// that can be handed over.
pub open spec fn obstacle(t: Tree) -> Option<Obstacle>
    decreases t, 0int,
{
    match t {
        Tree::Null => None,
        Tree::Bool(_) => None,
        Tree::Text(_) => None,
        Tree::Int(i) => if i64::MIN <= i <= u64::MAX {
            None
        } else {
            Some(Obstacle::NumberOutOfRange)
        },
        Tree::Real(text) => if spells_a_real(text) {
            None
        } else {
            Some(Obstacle::NumberSpelling)
        },
        Tree::List(items) => obstacle_among(items, items.len() as int),
        Tree::Record(entries) => if distinct_names(entries) {
            obstacle_within(entries, entries.len() as int)
        } else {
            Some(Obstacle::DuplicateField)
        },
    }
}

/// Entries whose values are fit for a format hold no obstacle.
pub proof fn lemma_fit_within(entries: Seq<(Seq<char>, Tree)>, n: int)
    requires
        0 <= n <= entries.len(),
        forall|i: int| 0 <= i < entries.len() ==> obstacle(#[trigger] entries[i].1) is None,
    ensures
        obstacle_within(entries, n) is None,
    decreases n,
{
    if n > 0 {
        lemma_fit_within(entries, n - 1);
    }
}

/// A record with no name twice, whose values are fit for a format, is fit
/// for a format.
pub proof fn lemma_fit_record(entries: Seq<(Seq<char>, Tree)>)
    requires
        distinct_names(entries),
        forall|i: int| 0 <= i < entries.len() ==> obstacle(#[trigger] entries[i].1) is None,
    ensures
        obstacle(Tree::Record(entries)) is None,
{
    lemma_fit_within(entries, entries.len() as int);
}

/// An obstacle among the first items is the obstacle of them all.
proof fn lemma_obstacle_among_stays(items: Seq<Tree>, k: int, n: int)
    requires
        0 <= k <= n <= items.len(),
        obstacle_among(items, k) is Some,
    ensures
        obstacle_among(items, n) == obstacle_among(items, k),
    decreases n - k,
{
    if k < n {
        lemma_obstacle_among_stays(items, k, n - 1);
    }
}

/// An obstacle within the first entries is the obstacle of them all.
proof fn lemma_obstacle_within_stays(entries: Seq<(Seq<char>, Tree)>, k: int, n: int)
    requires
        0 <= k <= n <= entries.len(),
        obstacle_within(entries, k) is Some,
    ensures
        obstacle_within(entries, n) == obstacle_within(entries, k),
    decreases n - k,
{
    if k < n {
        lemma_obstacle_within_stays(entries, k, n - 1);
    }
}

/// Whether no two fields of a record have one name.
pub fn has_distinct_names(entries: &Vec<(String, Node)>) -> (r: bool)
    ensures
        r == distinct_names(Node::Record(*entries)@->Record_0),
{
    let ghost shown = Node::Record(*entries)@->Record_0;
    proof {
        lemma_record_view(*entries);
    }
    let mut j: usize = 0;
    while j < entries.len()
        invariant
            j <= entries.len(),
            shown == Node::Record(*entries)@->Record_0,
            shown.len() == entries@.len(),
            forall|k: int| 0 <= k < entries@.len() ==> (#[trigger] shown[k]).0 == entries@[k].0@,
            forall|a: int, b: int| 0 <= a < b < j ==> shown[a].0 != shown[b].0,
        decreases entries.len() - j,
    {
        let mut i: usize = 0;
        while i < j
            invariant
                i <= j < entries.len(),
                shown == Node::Record(*entries)@->Record_0,
                shown.len() == entries@.len(),
                forall|k: int| 0 <= k < entries@.len() ==> (#[trigger] shown[k]).0 == entries@[k].0@,
                forall|a: int| 0 <= a < i ==> shown[a].0 != shown[j as int].0,
            decreases j - i,
        {
            if same_text(entries[i].0.as_str(), entries[j].0.as_str()) {
                assert(shown[i as int].0 == shown[j as int].0);
                return false;
            }
            assert(shown[i as int].0 != shown[j as int].0);
            i += 1;
        }
        j += 1;
    }
    true
}

/// Turns a record tree into an outside value, level by level, or finds the
/// first thing in it that keeps it from a format.
pub(crate) fn lower(node: &Node) -> (r: Result<serde_json::Value, Obstacle>)
    ensures
        match r {
            Ok(v) => obstacle(node@) is None && json_tree(v) == node@,
            Err(o) => obstacle(node@) == Some(o),
        },
    decreases node,
{
    match node {
        Node::Null => Ok(json_fold(Shell::Null)),
        Node::Bool(b) => Ok(json_fold(Shell::Bool(*b))),
        Node::Int(i) => match number_from_integer(*i) {
            Some(n) => Ok(json_fold(Shell::Number(n))),
            None => Err(Obstacle::NumberOutOfRange),
        },
        Node::Real(text) => match number_from_text(text.as_str()) {
            Some(n) => {
                let whole = number_as_integer(&n);
                let printed = number_as_text(&n);
                if whole.is_none() && same_text(printed.as_str(), text.as_str()) {
                    Ok(json_fold(Shell::Number(n)))
                } else {
                    Err(Obstacle::NumberSpelling)
                }
            },
            None => Err(Obstacle::NumberSpelling),
        },
        Node::Text(s) => Ok(json_fold(Shell::Text(s.clone()))),
        Node::List(items) => {
            let ghost shown = node@->List_0;
            proof {
                lemma_list_view(*items);
            }
            let mut out: Vec<serde_json::Value> = Vec::new();
            let mut i: usize = 0;
            while i < items.len()
                invariant
                    i <= items.len(),
                    *node == Node::List(*items),
                    node@ == Tree::List(shown),
                    shown.len() == items@.len(),
                    forall|k: int| 0 <= k < items@.len() ==> #[trigger] shown[k] == items@[k]@,
                    out@.len() == i,
                    forall|k: int| 0 <= k < i ==> json_tree(#[trigger] out@[k]) == shown[k],
                    obstacle_among(shown, i as int) is None,
                decreases items.len() - i,
            {
                assert(shown[i as int] == items@[i as int]@);
                match lower(&items[i]) {
                    Ok(v) => out.push(v),
                    Err(o) => {
                        proof {
                            assert(obstacle_among(shown, i + 1) == Some(o));
                            lemma_obstacle_among_stays(shown, i + 1, shown.len() as int);
                        }
                        return Err(o);
                    },
                }
                i += 1;
            }
            assert(json_trees(out@) =~= shown);
            Ok(json_fold(Shell::List(out)))
        },
        Node::Record(entries) => {
            let ghost shown = node@->Record_0;
            proof {
                lemma_record_view(*entries);
            }
            if !has_distinct_names(entries) {
                return Err(Obstacle::DuplicateField);
            }
            let mut out: Vec<(String, serde_json::Value)> = Vec::new();
            let mut i: usize = 0;
            while i < entries.len()
                invariant
                    i <= entries.len(),
                    *node == Node::Record(*entries),
                    node@ == Tree::Record(shown),
                    distinct_names(shown),
                    shown.len() == entries@.len(),
                    forall|k: int|
                        0 <= k < entries@.len() ==> #[trigger] shown[k] == (
                            entries@[k].0@,
                            entries@[k].1@,
                        ),
                    out@.len() == i,
                    forall|k: int|
                        0 <= k < i ==> (#[trigger] out@[k]).0@ == shown[k].0 && json_tree(out@[k].1)
                            == shown[k].1,
                    obstacle_within(shown, i as int) is None,
                decreases entries.len() - i,
            {
                assert(shown[i as int] == (entries@[i as int].0@, entries@[i as int].1@));
                match lower(&entries[i].1) {
                    Ok(v) => out.push((entries[i].0.clone(), v)),
                    Err(o) => {
                        proof {
                            assert(obstacle_within(shown, i + 1) == Some(o));
                            lemma_obstacle_within_stays(shown, i + 1, shown.len() as int);
                        }
                        return Err(o);
                    },
                }
                i += 1;
            }
            assert(json_members(out@) =~= shown);
            Ok(json_fold(Shell::Record(out)))
        },
    }
}

} // verus!
