//! What can go wrong, and where in a document it went wrong.

use vstd::prelude::*;
use vstd::string::StringExecFns;

verus! {

/// The kinds of failure that reading or writing a record can end in.
#[derive(Debug, Clone, Copy, PartialEq, Eq, Structural)]
pub enum Kind {
    /// A value has the wrong shape, or a required field is missing.
    MalformedStructure,
    /// A tag names none of the variants.
    UnknownVariant,
    /// A text is no identifier in canonical form.
    InvalidIdentifier,
    /// A text is no absolute locator.
    InvalidUrl,
    /// A text is no elapsed time.
    InvalidDuration,
    /// A text is no timestamp.
    InvalidTimestamp,
    /// A value cannot be written in the target format.
    FormatRenderError,
}

/// Why a tree cannot be handed to a format.
#[derive(Debug, Clone, Copy, PartialEq, Eq, Structural)]
pub enum Obstacle {
    /// It holds a number with a fraction or an exponent in a spelling that
    /// is not the number's own.
    NumberSpelling,
    /// It holds a whole number below -2^63 or above 2^64 - 1.
    NumberOutOfRange,
    /// One of its records holds two fields of one name.
    DuplicateField,
}

/// A failure to write a tree in a format.
#[derive(Debug, Clone, PartialEq, Eq)]
pub enum RenderError {
    /// The tree holds what no format is handed.
    Unfit(Obstacle),
    /// The format has no way to write the tree; the message is its own.
    Refused(String),
}

/// A failure to read a document in a format; the message is the format's
/// own.
#[derive(Debug, Clone, PartialEq, Eq)]
pub struct ParseError {
    pub message: String,
}

/// One step on the way from the top of a document to a value in it.
#[derive(Debug, Clone, PartialEq, Eq)]
pub enum Step {
    /// Into the field of that name.
    Field(String),
    /// Into the item at that position of a sequence.
    Index(usize),
}

/// The mathematical value of a step.
pub enum Place {
    Field(Seq<char>),
    Index(int),
}

impl View for Step {
    type V = Place;

    open spec fn view(&self) -> Place {
        match self {
            Step::Field(name) => Place::Field(name@),
            Step::Index(i) => Place::Index(*i as int),
        }
    }
}

/// A failure to decode, with its kind and the path to the value that caused
/// it.
#[derive(Debug, Clone, PartialEq, Eq)]
pub struct DecodeError {
    pub kind: Kind,
    pub path: Vec<Step>,
}

/// The mathematical value of a failure to decode.
pub struct Flaw {
    pub kind: Kind,
    pub path: Seq<Place>,
}

impl View for DecodeError {
    type V = Flaw;

    open spec fn view(&self) -> Flaw {
        Flaw { kind: self.kind, path: self.path@.map_values(|s: Step| s@) }
    }
}

impl Flaw {
    /// A failure of the value at hand.
    pub open spec fn here(kind: Kind) -> Flaw {
        Flaw { kind, path: Seq::empty() }
    }

    /// A failure of the field `name` of the value at hand.
    pub open spec fn at(kind: Kind, name: Seq<char>) -> Flaw {
        Flaw { kind, path: seq![Place::Field(name)] }
    }

    /// The same failure, seen from the record that holds the failing value
    /// in its field `name`.
    pub open spec fn in_field(self, name: Seq<char>) -> Flaw {
        Flaw { kind: self.kind, path: seq![Place::Field(name)] + self.path }
    }

    /// The same failure, seen from the sequence that holds the failing value
    /// at position `i`.
    pub open spec fn in_item(self, i: int) -> Flaw {
        Flaw { kind: self.kind, path: seq![Place::Index(i)] + self.path }
    }
}

/// A failure inside the field `name`, or the success unchanged.
pub open spec fn within_field<T>(r: Result<T, Flaw>, name: Seq<char>) -> Result<T, Flaw> {
    match r {
        Ok(v) => Ok(v),
        Err(flaw) => Err(flaw.in_field(name)),
    }
}

/// A failure inside the item at position `i`, or the success unchanged.
pub open spec fn within_item<T>(r: Result<T, Flaw>, i: int) -> Result<T, Flaw> {
    match r {
        Ok(v) => Ok(v),
        Err(flaw) => Err(flaw.in_item(i)),
    }
}

impl DecodeError {
    /// A failure of the value at hand.
    pub fn here(kind: Kind) -> (e: DecodeError)
        ensures
            e@ == Flaw::here(kind),
    {
        let e = DecodeError { kind, path: Vec::new() };
        assert(e@.path =~= Seq::empty());
        e
    }

    /// A failure of the field `name` of the value at hand.
    pub fn at(kind: Kind, name: &str) -> (e: DecodeError)
        ensures
            e@ == Flaw::at(kind, name@),
    {
        let mut path: Vec<Step> = Vec::new();
        path.push(Step::Field(String::from_str(name)));
        let e = DecodeError { kind, path };
        assert(e@.path =~= seq![Place::Field(name@)]);
        e
    }

    /// The same failure, seen from the record that holds the failing value
    /// in its field `name`.
    pub fn in_field(self, name: &str) -> (e: DecodeError)
        ensures
            e@ == self@.in_field(name@),
    {
        let DecodeError { kind, path } = self;
        let ghost before = path@;
        let mut path = path;
        path.insert(0, Step::Field(String::from_str(name)));
        let e = DecodeError { kind, path };
        assert(e@.path =~= seq![Place::Field(name@)] + before.map_values(|s: Step| s@));
        e
    }

    /// The same failure, seen from the sequence that holds the failing value
    /// at position `i`.
    pub fn in_item(self, i: usize) -> (e: DecodeError)
        ensures
            e@ == self@.in_item(i as int),
    {
        let DecodeError { kind, path } = self;
        let ghost before = path@;
        let mut path = path;
        path.insert(0, Step::Index(i));
        let e = DecodeError { kind, path };
        assert(e@.path =~= seq![Place::Index(i as int)] + before.map_values(|s: Step| s@));
        e
    }
}

} // verus!
