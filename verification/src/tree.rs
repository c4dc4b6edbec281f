//! The format-neutral record tree that every transcoder produces and
//! consumes: nested records, ordered sequences and scalars.

use vstd::prelude::*;
use crate::fault::{DecodeError, Flaw, Kind};
use crate::text::same_text;

verus! {

/// The mathematical value of a record tree.
pub enum Tree {
    Null,
    Bool(bool),
    Int(int),
    Real(Seq<char>),
    Text(Seq<char>),
    List(Seq<Tree>),
    Record(Seq<(Seq<char>, Tree)>),
}

/// A record tree.
///
/// Whole numbers are held as they are. A number with a fraction or an
/// exponent is held as the text that it prints as; the schema has no field of
/// that kind.
#[derive(Debug, PartialEq, Eq)]
pub enum Node {
    Null,
    Bool(bool),
    Int(i128),
    Real(String),
    Text(String),
    List(Vec<Node>),
    /// The fields in their order. Where a name occurs twice, the first
    /// occurrence is the field.
    Record(Vec<(String, Node)>),
}

/// The mathematical value of a record tree, level by level.
pub open spec fn tree_of(node: Node) -> Tree
    decreases node,
{
    match node {
        Node::Null => Tree::Null,
        Node::Bool(b) => Tree::Bool(b),
        Node::Int(i) => Tree::Int(i as int),
        Node::Real(s) => Tree::Real(s@),
        Node::Text(s) => Tree::Text(s@),
        Node::List(items) => Tree::List(
            Seq::new(
                items@.len(),
                |i: int|
                    if 0 <= i < items@.len() {
                        tree_of(items@[i])
                    } else {
                        Tree::Null
                    },
            ),
        ),
        Node::Record(entries) => Tree::Record(
            Seq::new(
                entries@.len(),
                |i: int|
                    if 0 <= i < entries@.len() {
                        (entries@[i].0@, tree_of(entries@[i].1))
                    } else {
                        (Seq::empty(), Tree::Null)
                    },
            ),
        ),
    }
}

impl View for Node {
    type V = Tree;

    open spec fn view(&self) -> Tree {
        tree_of(*self)
    }
}

/// The value of the first of the entries from position `from` on that has
/// the name `name`.
pub open spec fn field_from(entries: Seq<(Seq<char>, Tree)>, name: Seq<char>, from: int) -> Option<
    Tree,
>
    decreases entries.len() - from,
{
    if from < 0 || from >= entries.len() {
        None
    } else if entries[from].0 == name {
        Some(entries[from].1)
    } else {
        field_from(entries, name, from + 1)
    }
}

/// The value of the field `name` among the entries of a record.
pub open spec fn field(entries: Seq<(Seq<char>, Tree)>, name: Seq<char>) -> Option<Tree> {
    field_from(entries, name, 0)
}

impl Tree {
    /// The value of the field `name` of a record. Anything but a record is
    /// malformed; so is a record without the field, at the field.
    pub open spec fn member(self, name: Seq<char>) -> Result<Tree, Flaw> {
        match self {
            Tree::Record(entries) => match field(entries, name) {
                Some(value) => Ok(value),
                None => Err(Flaw::at(Kind::MalformedStructure, name)),
            },
            _ => Err(Flaw::here(Kind::MalformedStructure)),
        }
    }

    /// The text in the field `name`.
    pub open spec fn text_at(self, name: Seq<char>) -> Result<Seq<char>, Flaw> {
        match self.member(name) {
            Ok(Tree::Text(text)) => Ok(text),
            Ok(_) => Err(Flaw::at(Kind::MalformedStructure, name)),
            Err(flaw) => Err(flaw),
        }
    }

    /// The whole number in the field `name`, which fits 32 bits without a
    /// sign.
    pub open spec fn number_at(self, name: Seq<char>) -> Result<u32, Flaw> {
        match self.member(name) {
            Ok(Tree::Int(i)) => if 0 <= i <= u32::MAX {
                Ok(i as u32)
            } else {
                Err(Flaw::at(Kind::MalformedStructure, name))
            },
            Ok(_) => Err(Flaw::at(Kind::MalformedStructure, name)),
            Err(flaw) => Err(flaw),
        }
    }

    /// The truth value in the field `name`.
    pub open spec fn flag_at(self, name: Seq<char>) -> Result<bool, Flaw> {
        match self.member(name) {
            Ok(Tree::Bool(b)) => Ok(b),
            Ok(_) => Err(Flaw::at(Kind::MalformedStructure, name)),
            Err(flaw) => Err(flaw),
        }
    }
}

/// The value of a record, entry by entry.
pub proof fn lemma_record_view(entries: Vec<(String, Node)>)
    ensures
        Node::Record(entries)@ is Record,
        Node::Record(entries)@->Record_0.len() == entries@.len(),
        forall|j: int|
            0 <= j < entries@.len() ==> #[trigger] Node::Record(entries)@->Record_0[j] == (
                entries@[j].0@,
                entries@[j].1@,
            ),
{
}

/// The value of a sequence, item by item.
pub proof fn lemma_list_view(items: Vec<Node>)
    ensures
        Node::List(items)@ is List,
        Node::List(items)@->List_0.len() == items@.len(),
        forall|j: int| 0 <= j < items@.len() ==> #[trigger] Node::List(items)@->List_0[j] == items@[j]@,
{
}

/// An entry of a record under construction.
pub fn entry(name: &str, value: Node) -> (e: (String, Node))
    ensures
        e.0@ == name@,
        e.1 == value,
{
    (name.to_owned(), value)
}

impl Node {
    /// A text scalar.
    pub fn text(text: &str) -> (node: Node)
        ensures
            node@ == Tree::Text(text@),
    {
        Node::Text(text.to_owned())
    }

    /// A whole-number scalar.
    pub fn number(n: u32) -> (node: Node)
        ensures
            node@ == Tree::Int(n as int),
    {
        Node::Int(n as i128)
    }

    /// The value of the field `name` of a record.
    pub fn member<'a>(&'a self, name: &str) -> (r: Result<&'a Node, DecodeError>)
        ensures
            match r {
                Ok(node) => self@.member(name@) == Ok::<Tree, Flaw>(node@),
                Err(e) => self@.member(name@) == Err::<Tree, Flaw>(e@),
            },
    {
        match self {
            Node::Record(entries) => {
                let ghost shown = self@->Record_0;
                proof {
                    lemma_record_view(*entries);
                }
                let mut i: usize = 0;
                while i < entries.len()
                    invariant
                        i <= entries.len(),
                        self@ == Tree::Record(shown),
                        shown.len() == entries@.len(),
                        forall|j: int|
                            0 <= j < entries@.len() ==> #[trigger] shown[j] == (
                                entries@[j].0@,
                                entries@[j].1@,
                            ),
                        field(shown, name@) == field_from(shown, name@, i as int),
                    decreases entries.len() - i,
                {
                    if same_text(entries[i].0.as_str(), name) {
                        assert(shown[i as int] == (entries@[i as int].0@, entries@[i as int].1@));
                        assert(field_from(shown, name@, i as int) == Some(shown[i as int].1));
                        return Ok(&entries[i].1);
                    }
                    assert(shown[i as int] == (entries@[i as int].0@, entries@[i as int].1@));
                    assert(field_from(shown, name@, i as int) == field_from(shown, name@, i + 1));
                    i += 1;
                }
                Err(DecodeError::at(Kind::MalformedStructure, name))
            },
            _ => Err(DecodeError::here(Kind::MalformedStructure)),
        }
    }

    /// The text in the field `name`.
    pub fn text_at<'a>(&'a self, name: &str) -> (r: Result<&'a str, DecodeError>)
        ensures
            match r {
                Ok(text) => self@.text_at(name@) == Ok::<Seq<char>, Flaw>(text@),
                Err(e) => self@.text_at(name@) == Err::<Seq<char>, Flaw>(e@),
            },
    {
        match self.member(name) {
            Ok(Node::Text(text)) => Ok(text.as_str()),
            Ok(_) => Err(DecodeError::at(Kind::MalformedStructure, name)),
            Err(e) => Err(e),
        }
    }

    /// The whole number in the field `name`, which fits 32 bits without a
    /// sign.
    pub fn number_at(&self, name: &str) -> (r: Result<u32, DecodeError>)
        ensures
            match r {
                Ok(n) => self@.number_at(name@) == Ok::<u32, Flaw>(n),
                Err(e) => self@.number_at(name@) == Err::<u32, Flaw>(e@),
            },
    {
        match self.member(name) {
            Ok(Node::Int(i)) => {
                if 0 <= *i && *i <= 4294967295 {
                    Ok(*i as u32)
                } else {
                    Err(DecodeError::at(Kind::MalformedStructure, name))
                }
            },
            Ok(_) => Err(DecodeError::at(Kind::MalformedStructure, name)),
            Err(e) => Err(e),
        }
    }

    /// The truth value in the field `name`.
    pub fn flag_at(&self, name: &str) -> (r: Result<bool, DecodeError>)
        ensures
            match r {
                Ok(b) => self@.flag_at(name@) == Ok::<bool, Flaw>(b),
                Err(e) => self@.flag_at(name@) == Err::<bool, Flaw>(e@),
            },
    {
        match self.member(name) {
            Ok(Node::Bool(b)) => Ok(*b),
            Ok(_) => Err(DecodeError::at(Kind::MalformedStructure, name)),
            Err(e) => Err(e),
        }
    }
}

impl Clone for Node {
    /// A copy that holds the same tree.
    fn clone(&self) -> (copy: Node)
        ensures
            copy@ == self@,
    {
        self.duplicate()
    }
}

impl Node {
    /// A copy that holds the same tree.
    fn duplicate(&self) -> (copy: Node)
        ensures
            copy@ == self@,
        decreases self,
    {
        match self {
            Node::Null => Node::Null,
            Node::Bool(b) => Node::Bool(*b),
            Node::Int(i) => Node::Int(*i),
            Node::Real(s) => Node::Real(s.clone()),
            Node::Text(s) => Node::Text(s.clone()),
            Node::List(items) => {
                let mut copies: Vec<Node> = Vec::new();
                let mut i: usize = 0;
                while i < items.len()
                    invariant
                        i <= items.len(),
                        *self == Node::List(*items),
                        copies@.len() == i,
                        forall|k: int| 0 <= k < i ==> (#[trigger] copies@[k])@ == items@[k]@,
                    decreases items.len() - i,
                {
                    assert(self->List_0@[i as int] == items@[i as int]);
                    copies.push(items[i].duplicate());
                    i += 1;
                }
                proof {
                    lemma_list_view(*items);
                    lemma_list_view(copies);
                }
                let copy = Node::List(copies);
                assert(copy@->List_0 =~= self@->List_0);
                copy
            },
            Node::Record(entries) => {
                let mut copies: Vec<(String, Node)> = Vec::new();
                let mut i: usize = 0;
                while i < entries.len()
                    invariant
                        i <= entries.len(),
                        *self == Node::Record(*entries),
                        copies@.len() == i,
                        forall|k: int|
                            0 <= k < i ==> (#[trigger] copies@[k]).0@ == entries@[k].0@
                                && copies@[k].1@ == entries@[k].1@,
                    decreases entries.len() - i,
                {
                    assert(self->Record_0@[i as int] == entries@[i as int]);
                    copies.push((entries[i].0.clone(), entries[i].1.duplicate()));
                    i += 1;
                }
                proof {
                    lemma_record_view(*entries);
                    lemma_record_view(copies);
                }
                let copy = Node::Record(copies);
                assert(copy@->Record_0 =~= self@->Record_0);
                copy
            },
        }
    }
}

/// The first `n` entries without those that hold nothing, what is left of
/// them without the fields that hold nothing further down.
pub open spec fn kept_upto(entries: Seq<(Seq<char>, Tree)>, n: int) -> Seq<(Seq<char>, Tree)>
    decreases entries, n,
{
    if n <= 0 || n > entries.len() {
        Seq::empty()
    } else if entries[n - 1].1 is Null {
        kept_upto(entries, n - 1)
    } else {
        kept_upto(entries, n - 1).push((entries[n - 1].0, without_nulls(entries[n - 1].1)))
    }
}

/// The tree without the fields of records that hold nothing, at every
/// depth. An item of a sequence keeps its place, whatever it holds.
pub open spec fn without_nulls(t: Tree) -> Tree
    decreases t, 0int,
{
    match t {
        Tree::List(items) => Tree::List(
            Seq::new(
                items.len(),
                |i: int|
                    if 0 <= i < items.len() {
                        without_nulls(items[i])
                    } else {
                        Tree::Null
                    },
            ),
        ),
        Tree::Record(entries) => Tree::Record(kept_upto(entries, entries.len() as int)),
        _ => t,
    }
}

/// Entries that hold something, and nothing to take away further down, are
/// all kept as they are.
pub proof fn lemma_all_kept(entries: Seq<(Seq<char>, Tree)>, n: int)
    requires
        0 <= n <= entries.len(),
        forall|i: int|
            0 <= i < entries.len() ==> !((#[trigger] entries[i]).1 is Null) && without_nulls(
                entries[i].1,
            ) == entries[i].1,
    ensures
        kept_upto(entries, n) == entries.take(n),
    decreases n,
{
    if n > 0 {
        lemma_all_kept(entries, n - 1);
        assert(entries.take(n - 1).push(entries[n - 1]) =~= entries.take(n));
    } else {
        assert(entries.take(0) =~= Seq::<(Seq<char>, Tree)>::empty());
    }
}

/// A record whose fields hold something, and nothing to take away further
/// down, is left as it is.
pub proof fn lemma_record_is_kept(entries: Seq<(Seq<char>, Tree)>)
    requires
        forall|i: int|
            0 <= i < entries.len() ==> !((#[trigger] entries[i]).1 is Null) && without_nulls(
                entries[i].1,
            ) == entries[i].1,
    ensures
        without_nulls(Tree::Record(entries)) == Tree::Record(entries),
{
    lemma_all_kept(entries, entries.len() as int);
    assert(entries.take(entries.len() as int) =~= entries);
}

/// A sequence whose items have nothing to take away is left as it is.
pub proof fn lemma_list_is_kept(items: Seq<Tree>)
    requires
        forall|i: int| 0 <= i < items.len() ==> without_nulls(#[trigger] items[i]) == items[i],
    ensures
        without_nulls(Tree::List(items)) == Tree::List(items),
{
    assert(without_nulls(Tree::List(items))->List_0 =~= items);
}

impl Node {
    /// A copy without the fields of records that hold nothing.
    pub fn without_nulls(&self) -> (kept: Node)
        ensures
            kept@ == without_nulls(self@),
        decreases self,
    {
        match self {
            Node::List(items) => {
                let ghost shown = self@->List_0;
                proof {
                    lemma_list_view(*items);
                }
                let mut out: Vec<Node> = Vec::new();
                let mut i: usize = 0;
                while i < items.len()
                    invariant
                        i <= items.len(),
                        *self == Node::List(*items),
                        self@ == Tree::List(shown),
                        shown.len() == items@.len(),
                        forall|k: int| 0 <= k < items@.len() ==> #[trigger] shown[k] == items@[k]@,
                        out@.len() == i,
                        forall|k: int| 0 <= k < i ==> (#[trigger] out@[k])@ == without_nulls(shown[k]),
                    decreases items.len() - i,
                {
                    assert(self->List_0@[i as int] == items@[i as int]);
                    assert(shown[i as int] == items@[i as int]@);
                    out.push(items[i].without_nulls());
                    i += 1;
                }
                proof {
                    lemma_list_view(out);
                }
                let kept = Node::List(out);
                assert(kept@->List_0 =~= without_nulls(self@)->List_0);
                kept
            },
            Node::Record(entries) => {
                let ghost shown = self@->Record_0;
                proof {
                    lemma_record_view(*entries);
                }
                let mut out: Vec<(String, Node)> = Vec::new();
                let mut i: usize = 0;
                proof {
                    lemma_record_view(out);
                    assert(Node::Record(out)@->Record_0 =~= kept_upto(shown, 0));
                }
                while i < entries.len()
                    invariant
                        i <= entries.len(),
                        *self == Node::Record(*entries),
                        self@ == Tree::Record(shown),
                        shown.len() == entries@.len(),
                        forall|k: int|
                            0 <= k < entries@.len() ==> #[trigger] shown[k] == (
                                entries@[k].0@,
                                entries@[k].1@,
                            ),
                        Node::Record(out)@->Record_0 == kept_upto(shown, i as int),
                    decreases entries.len() - i,
                {
                    assert(self->Record_0@[i as int] == entries@[i as int]);
                    assert(shown[i as int] == (entries@[i as int].0@, entries@[i as int].1@));
                    let ghost before = out;
                    match &entries[i].1 {
                        Node::Null => {},
                        value => {
                            let kept = value.without_nulls();
                            out.push((entries[i].0.clone(), kept));
                            proof {
                                lemma_record_view(before);
                                lemma_record_view(out);
                                assert(Node::Record(out)@->Record_0 =~= Node::Record(
                                    before,
                                )@->Record_0.push((shown[i as int].0, without_nulls(shown[i as int].1))));
                            }
                        },
                    }
                    i += 1;
                }
                Node::Record(out)
            },
            _ => self.duplicate(),
        }
    }
}

} // verus!
