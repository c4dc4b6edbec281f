//! The three format transcoders. Each reads a text into a record tree and
//! writes a record tree as a text; what a text holds and how a tree is spelled
//! is the business of the format's own library.

use vstd::prelude::*;
use crate::fault::{Obstacle, ParseError, RenderError};
use crate::hub::{json_tree, lift, lower, obstacle};
use crate::tree::{Node, Tree, without_nulls};

verus! {

/// The formats that a record tree is read from and written in.
#[derive(Debug, Clone, Copy, PartialEq, Eq, Structural)]
pub enum Format {
    Json,
    Yaml,
    Toml,
}

/// The tree that `serde_json` reads from a text; `None` where it refuses
/// the text.
pub uninterp spec fn json_reading(text: Seq<char>) -> Option<Tree>;

/// The tree that `serde_yaml` reads from a text; `None` where it refuses
/// the text.
pub uninterp spec fn yaml_reading(text: Seq<char>) -> Option<Tree>;

/// The tree that `toml` reads from a text; `None` where it refuses the
/// text.
pub uninterp spec fn toml_reading(text: Seq<char>) -> Option<Tree>;

/// The text that `serde_json` writes for a tree; `None` where it refuses
/// the tree.
pub uninterp spec fn json_writing(t: Tree) -> Option<Seq<char>>;

/// The text that `serde_yaml` writes for a tree; `None` where it refuses
/// the tree.
pub uninterp spec fn yaml_writing(t: Tree) -> Option<Seq<char>>;

/// The text that `toml` writes for a tree; `None` where it refuses the
/// tree.
pub uninterp spec fn toml_writing(t: Tree) -> Option<Seq<char>>;

/// The tree that a format reads from a text.
pub open spec fn reading(format: Format, text: Seq<char>) -> Option<Tree> {
    match format {
        Format::Json => json_reading(text),
        Format::Yaml => yaml_reading(text),
        Format::Toml => toml_reading(text),
    }
}

/// The text that a format writes for a tree.
pub open spec fn writing(format: Format, t: Tree) -> Option<Seq<char>> {
    match format {
        Format::Json => json_writing(t),
        Format::Yaml => yaml_writing(t),
        Format::Toml => toml_writing(t),
    }
}

/// `serde_json::from_str`, into the document model of `serde_json`. Claimed
/// of it: whether the text is accepted, and what the document holds, depend
/// on the text alone.
#[verifier::external_body]
fn json_read(text: &str) -> (r: Result<serde_json::Value, String>)
    ensures
        match r {
            Ok(v) => json_reading(text@) == Some(json_tree(v)),
            Err(_) => json_reading(text@) is None,
        },
{
    serde_json::from_str::<serde_json::Value>(text).map_err(|e| e.to_string())
}

/// `serde_yaml::from_str`, into the document model of `serde_json`. Claimed
/// of it as of `json_read`.
#[verifier::external_body]
fn yaml_read(text: &str) -> (r: Result<serde_json::Value, String>)
    ensures
        match r {
            Ok(v) => yaml_reading(text@) == Some(json_tree(v)),
            Err(_) => yaml_reading(text@) is None,
        },
{
    serde_yaml::from_str::<serde_json::Value>(text).map_err(|e| e.to_string())
}

/// `toml::from_str`, into the document model of `serde_json`. Claimed of it
/// as of `json_read`.
#[verifier::external_body]
fn toml_read(text: &str) -> (r: Result<serde_json::Value, String>)
    ensures
        match r {
            Ok(v) => toml_reading(text@) == Some(json_tree(v)),
            Err(_) => toml_reading(text@) is None,
        },
{
    toml::from_str::<serde_json::Value>(text).map_err(|e| e.to_string())
}

/// `serde_json::to_string`. Claimed of it: whether the document is written,
/// and the text, depend on what the document holds alone.
#[verifier::external_body]
fn json_write(v: &serde_json::Value) -> (r: Result<String, String>)
    ensures
        match r {
            Ok(text) => json_writing(json_tree(*v)) == Some(text@),
            Err(_) => json_writing(json_tree(*v)) is None,
        },
{
    serde_json::to_string(v).map_err(|e| e.to_string())
}

/// `serde_yaml::to_string`. Claimed of it as of `json_write`.
#[verifier::external_body]
fn yaml_write(v: &serde_json::Value) -> (r: Result<String, String>)
    ensures
        match r {
            Ok(text) => yaml_writing(json_tree(*v)) == Some(text@),
            Err(_) => yaml_writing(json_tree(*v)) is None,
        },
{
    serde_yaml::to_string(v).map_err(|e| e.to_string())
}

/// `toml::to_string`. Claimed of it as of `json_write`.
#[verifier::external_body]
fn toml_write(v: &serde_json::Value) -> (r: Result<String, String>)
    ensures
        match r {
            Ok(text) => toml_writing(json_tree(*v)) == Some(text@),
            Err(_) => toml_writing(json_tree(*v)) is None,
        },
{
    toml::to_string(v).map_err(|e| e.to_string())
}

/// The tree that a format is handed for a tree. TOML has no way to write
/// that a field holds nothing: it is handed the tree without such fields.
pub open spec fn handed(format: Format, t: Tree) -> Tree {
    match format {
        Format::Toml => without_nulls(t),
        _ => t,
    }
}

/// What writing a tree in a format comes to: the text; the obstacle that
/// keeps the tree from the format; or, without an obstacle, the refusal of the
/// format.
pub open spec fn rendering(format: Format, t: Tree) -> Result<Seq<char>, Option<Obstacle>> {
    match obstacle(handed(format, t)) {
        Some(o) => Err(Some(o)),
        None => match writing(format, handed(format, t)) {
            Some(text) => Ok(text),
            None => Err(None),
        },
    }
}

/// Whether a failure to write is the one that `rendering` names.
pub open spec fn names_failure(e: RenderError, failure: Option<Obstacle>) -> bool {
    match e {
        RenderError::Unfit(o) => failure == Some(o),
        RenderError::Refused(_) => failure is None,
    }
}

/// Reads a text in a format into a record tree.
pub fn parse(format: Format, text: &str) -> (r: Result<Node, ParseError>)
    ensures
        match r {
            Ok(node) => reading(format, text@) == Some(node@),
            Err(_) => reading(format, text@) is None,
        },
{
    let read = match format {
        Format::Json => json_read(text),
        Format::Yaml => yaml_read(text),
        Format::Toml => toml_read(text),
    };
    match read {
        Ok(v) => Ok(lift(v)),
        Err(message) => Err(ParseError { message }),
    }
}

/// Writes a record tree as a text in a format. In TOML the fields that
/// hold nothing are left out.
pub fn render(format: Format, node: &Node) -> (r: Result<String, RenderError>)
    ensures
        match r {
            Ok(text) => rendering(format, node@) == Ok::<Seq<char>, Option<Obstacle>>(text@),
            Err(e) => rendering(format, node@) is Err && names_failure(
                e,
                rendering(format, node@)->Err_0,
            ),
        },
{
    let lowered = match format {
        Format::Toml => lower(&node.without_nulls()),
        _ => lower(node),
    };
    let v = match lowered {
        Ok(v) => v,
        Err(o) => return Err(RenderError::Unfit(o)),
    };
    let written = match format {
        Format::Json => json_write(&v),
        Format::Yaml => yaml_write(&v),
        Format::Toml => toml_write(&v),
    };
    match written {
        Ok(text) => Ok(text),
        Err(message) => Err(RenderError::Refused(message)),
    }
}

} // verus!
