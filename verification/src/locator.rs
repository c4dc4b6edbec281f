//! The locator codec: an absolute URL, held in its normal form.

use vstd::prelude::*;
use crate::fault::Kind;
use crate::text::same_text;

verus! {

/// The normal form that `url::Url::parse` gives an absolute URL; `None` where
/// it refuses the text.
pub uninterp spec fn locator_normal_form(text: Seq<char>) -> Option<Seq<char>>;

/// An absolute URL in its normal form.
#[derive(Debug, Clone, PartialEq, Eq, Hash)]
pub struct Locator {
    text: String,
}

impl View for Locator {
    type V = Seq<char>;

    closed spec fn view(&self) -> Seq<char> {
        self.text@
    }
}

/// `url::Url::parse`, with the serialization of the URL it read. Claimed of
/// it: whether the text is accepted, and the serialization, depend on the
/// text alone.
#[verifier::external_body]
fn url_parse(text: &str) -> (r: Option<String>)
    ensures
        match r {
            Some(normal) => locator_normal_form(text@) == Some(normal@),
            None => locator_normal_form(text@) is None,
        },
{
    url::Url::parse(text).ok().map(|u| u.into())
}

impl Locator {
    /// What reading a text gives: the normal form, or the refusal.
    pub open spec fn decoding(text: Seq<char>) -> Result<Seq<char>, Kind> {
        match locator_normal_form(text) {
            Some(normal) => Ok(normal),
            None => Err(Kind::InvalidUrl),
        }
    }

    /// Whether a text is its own normal form.
    pub open spec fn reads_back(text: Seq<char>) -> bool {
        Locator::decoding(text) == Ok::<Seq<char>, Kind>(text)
    }

    /// Reads an absolute URL and keeps its normal form.
    pub fn decode(text: &str) -> (r: Result<Locator, Kind>)
        ensures
            match r {
                Ok(locator) => Locator::decoding(text@) == Ok::<Seq<char>, Kind>(locator@),
                Err(kind) => Locator::decoding(text@) == Err::<Seq<char>, Kind>(kind),
            },
    {
        match url_parse(text) {
            Some(text) => Ok(Locator { text }),
            None => Err(Kind::InvalidUrl),
        }
    }

    /// Writes the normal form.
    pub fn encode(&self) -> (text: String)
        ensures
            text@ == self@,
    {
        self.text.clone()
    }

    /// Whether two locators have the same normal form.
    pub fn same_as(&self, other: &Locator) -> (same: bool)
        ensures
            same == (self@ == other@),
    {
        same_text(self.text.as_str(), other.text.as_str())
    }

    /// The normal form.
    pub fn as_str(&self) -> (text: &str)
        ensures
            text@ == self@,
    {
        self.text.as_str()
    }
}

} // verus!
