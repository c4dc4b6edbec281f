//! A user. No document of the pipeline holds one; the record is part of the
//! schema all the same.

use vstd::prelude::*;
use crate::fault::{DecodeError, Flaw};
use crate::hub::{distinct_names, lemma_fit_record, obstacle};
use crate::tree::{
    entry,
    field_from,
    lemma_record_is_kept,
    lemma_record_view,
    Node,
    Tree,
    without_nulls,
};

verus! {

/// A user. The birthdate is free text.
#[derive(Debug, Clone, PartialEq, Eq)]
pub struct User {
    pub name: String,
    pub email: String,
    pub birthdate: String,
}

/// The mathematical value of a user.
pub struct UserView {
    pub name: Seq<char>,
    pub email: Seq<char>,
    pub birthdate: Seq<char>,
}

impl View for User {
    type V = UserView;

    open spec fn view(&self) -> UserView {
        UserView { name: self.name@, email: self.email@, birthdate: self.birthdate@ }
    }
}

impl User {
    /// What decoding a tree gives: the user, or the failure of the first
    /// field, in the order `name`, `email`, `birthdate`, that is missing or
    /// is no text.
    pub open spec fn decoding(t: Tree) -> Result<UserView, Flaw> {
        let name = t.text_at("name"@);
        let email = t.text_at("email"@);
        let birthdate = t.text_at("birthdate"@);
        if name is Err {
            Err(name->Err_0)
        } else if email is Err {
            Err(email->Err_0)
        } else if birthdate is Err {
            Err(birthdate->Err_0)
        } else {
            Ok(UserView { name: name->Ok_0, email: email->Ok_0, birthdate: birthdate->Ok_0 })
        }
    }

    /// The record that stands for a user.
    pub open spec fn encoding(v: UserView) -> Tree {
        Tree::Record(
            seq![
                ("name"@, Tree::Text(v.name)),
                ("email"@, Tree::Text(v.email)),
                ("birthdate"@, Tree::Text(v.birthdate)),
            ],
        )
    }

    /// Decodes a user from a record.
    pub fn decode(node: &Node) -> (r: Result<User, DecodeError>)
        ensures
            match r {
                Ok(user) => User::decoding(node@) == Ok::<UserView, Flaw>(user@),
                Err(e) => User::decoding(node@) == Err::<UserView, Flaw>(e@),
            },
    {
        let name = match node.text_at("name") {
            Ok(v) => v,
            Err(e) => return Err(e),
        };
        let email = match node.text_at("email") {
            Ok(v) => v,
            Err(e) => return Err(e),
        };
        let birthdate = match node.text_at("birthdate") {
            Ok(v) => v,
            Err(e) => return Err(e),
        };
        Ok(User { name: name.to_owned(), email: email.to_owned(), birthdate: birthdate.to_owned() })
    }

    /// Encodes the user as a record, which decodes as the same user.
    pub fn encode(&self) -> (node: Node)
        ensures
            node@ == User::encoding(self@),
            User::decoding(node@) == Ok::<UserView, Flaw>(self@),
    {
        let mut entries: Vec<(String, Node)> = Vec::new();
        entries.push(entry("name", Node::text(self.name.as_str())));
        entries.push(entry("email", Node::text(self.email.as_str())));
        entries.push(entry("birthdate", Node::text(self.birthdate.as_str())));
        proof {
            lemma_record_view(entries);
            law_user_round_trip(self@);
        }
        let node = Node::Record(entries);
        assert(node@->Record_0 =~= User::encoding(self@)->Record_0);
        node
    }
}

/// The names of the fields of a user differ in length.
proof fn lemma_user_names()
    ensures
        "name"@.len() == 4,
        "email"@.len() == 5,
        "birthdate"@.len() == 9,
{
    reveal_strlit("name");
    reveal_strlit("email");
    reveal_strlit("birthdate");
}

/// A user decodes from its own encoding.
pub proof fn law_user_round_trip(v: UserView)
    ensures
        User::decoding(User::encoding(v)) == Ok::<UserView, Flaw>(v),
{
    lemma_user_names();
    reveal_with_fuel(field_from, 4);
}

/// Nothing in the encoding of a user keeps it from a format, and it has no
/// field that holds nothing.
pub proof fn law_user_is_fit(v: UserView)
    ensures
        obstacle(User::encoding(v)) is None,
        without_nulls(User::encoding(v)) == User::encoding(v),
{
    lemma_user_names();
    let entries = User::encoding(v)->Record_0;
    assert(distinct_names(entries));
    lemma_fit_record(entries);
    lemma_record_is_kept(entries);
}

} // verus!
