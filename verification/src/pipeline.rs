//! The document pipeline: a request is read from JSON, decoded, and written
//! out again in YAML and in TOML, in one go and all or nothing.

use vstd::prelude::*;
use crate::fault::{DecodeError, Flaw, Kind, ParseError, RenderError};
use crate::request::{law_request_is_fit, law_request_round_trip, Request, RequestView};
use crate::text::same_text;
use crate::transcode::{Format, parse, reading, render, writing};

verus! {

/// What a run of the pipeline gives.
#[derive(Debug, Clone, PartialEq, Eq)]
pub struct Output {
    /// The request that the input held.
    pub decoded: Request,
    /// The request in YAML.
    pub as_yaml: String,
    /// The request in TOML.
    pub as_toml: String,
}

/// Why a run of the pipeline gave nothing.
#[derive(Debug, Clone, PartialEq, Eq)]
pub enum PipelineError {
    /// The input is no JSON document.
    Parse(ParseError),
    /// The document is no request.
    Decode(DecodeError),
    /// The request cannot be written in one of the formats.
    Render(RenderError),
}

impl PipelineError {
    /// The kind of the failure: a text that is no JSON document has the
    /// wrong shape, a failure to decode has its own kind, and every failure
    /// to write is of one kind.
    pub fn kind(&self) -> (kind: Kind)
        ensures
            kind == match *self {
                PipelineError::Parse(_) => Kind::MalformedStructure,
                PipelineError::Decode(e) => e.kind,
                PipelineError::Render(_) => Kind::FormatRenderError,
            },
    {
        match self {
            PipelineError::Parse(_) => Kind::MalformedStructure,
            PipelineError::Decode(e) => e.kind,
            PipelineError::Render(_) => Kind::FormatRenderError,
        }
    }
}

/// Reads a request from a JSON document.
pub fn read_request(input: &str) -> (r: Result<Request, PipelineError>)
    ensures
        match r {
            Ok(request) => reading(Format::Json, input@) is Some && Request::decoding(
                reading(Format::Json, input@)->Some_0,
            ) == Ok::<RequestView, Flaw>(request@) && request@.valid(),
            Err(PipelineError::Parse(_)) => reading(Format::Json, input@) is None,
            Err(PipelineError::Decode(e)) => reading(Format::Json, input@) is Some
                && Request::decoding(reading(Format::Json, input@)->Some_0) == Err::<
                RequestView,
                Flaw,
            >(e@),
            Err(PipelineError::Render(_)) => false,
        },
{
    let node = match parse(Format::Json, input) {
        Ok(node) => node,
        Err(e) => return Err(PipelineError::Parse(e)),
    };
    match Request::decode(&node) {
        Ok(request) => Ok(request),
        Err(e) => Err(PipelineError::Decode(e)),
    }
}

/// Writes a request in a format. The encoding of a request holds nothing
/// that keeps it from a format, so the only failure left is the format's own
/// refusal.
pub fn write_request(request: &Request, format: Format) -> (r: Result<String, RenderError>)
    ensures
        match r {
            Ok(text) => writing(format, Request::encoding(request@)) == Some(text@),
            Err(e) => writing(format, Request::encoding(request@)) is None && e is Refused,
        },
{
    proof {
        law_request_is_fit(request@);
    }
    let node = request.encode();
    render(format, &node)
}

/// Whether a text in a format holds a request: the format reads a tree
/// from the text, and the tree decodes as the request.
pub open spec fn holds(format: Format, text: Seq<char>, v: RequestView) -> bool {
    reading(format, text) is Some && Request::decoding(reading(format, text)->Some_0) == Ok::<
        RequestView,
        Flaw,
    >(v)
}

/// Reads a text in a format again and tells whether it holds the request.
pub fn reads_as(format: Format, text: &str, request: &Request) -> (same: bool)
    ensures
        same == holds(format, text@, request@),
{
    match parse(format, text) {
        Ok(node) => match Request::decode(&node) {
            Ok(again) => again.same_as(request),
            Err(_) => false,
        },
        Err(_) => false,
    }
}

/// Whether a text in a format holds a request that is written in that
/// format as this very text.
pub open spec fn settled(format: Format, text: Seq<char>) -> bool {
    &&& reading(format, text) is Some
    &&& Request::decoding(reading(format, text)->Some_0) is Ok
    &&& writing(
        format,
        Request::encoding(Request::decoding(reading(format, text)->Some_0)->Ok_0),
    ) == Some(text)
}

/// Reads a request from a text in a format, writes it in that format again
/// and tells whether the same text came out, byte for byte.
pub fn writes_again(format: Format, text: &str) -> (same: bool)
    ensures
        same == settled(format, text@),
{
    let node = match parse(format, text) {
        Ok(node) => node,
        Err(_) => return false,
    };
    let request = match Request::decode(&node) {
        Ok(request) => request,
        Err(_) => return false,
    };
    match write_request(&request, format) {
        Ok(again) => same_text(again.as_str(), text),
        Err(_) => false,
    }
}

/// Where every text that a codec writes for a request reads back, and a
/// format reads from the text that it wrote for the request the tree that it
/// was handed, that text holds the request, and the request that it holds is
/// written as that text again. What a format reads from its own text is the
/// format's business: it is a premise here, and `reads_as` and
/// `writes_again` find it out for a given text.
pub proof fn law_written_request_settles(format: Format, v: RequestView, text: Seq<char>)
    requires
        v.valid(),
        v.reads_back(),
        writing(format, Request::encoding(v)) == Some(text),
        reading(format, text) == Some(Request::encoding(v)),
    ensures
        holds(format, text, v),
        settled(format, text),
{
    law_request_round_trip(v);
}

impl Output {
    /// Whether both renderings, read again, hold the request that was
    /// decoded.
    pub fn round_trips(&self) -> (same: bool)
        ensures
            same == (holds(Format::Yaml, self.as_yaml@, self.decoded@) && holds(
                Format::Toml,
                self.as_toml@,
                self.decoded@,
            )),
    {
        reads_as(Format::Yaml, self.as_yaml.as_str(), &self.decoded) && reads_as(
            Format::Toml,
            self.as_toml.as_str(),
            &self.decoded,
        )
    }
}

/// Runs the pipeline on a JSON document: the request it holds, and that
/// request in YAML and in TOML. Any failure gives up the whole run; of two
/// formats that refuse, the refusal of YAML is the one reported.
pub fn run(input: &str) -> (r: Result<Output, PipelineError>)
    ensures
        match r {
            Ok(out) => {
                &&& reading(Format::Json, input@) is Some
                &&& Request::decoding(reading(Format::Json, input@)->Some_0) == Ok::<
                    RequestView,
                    Flaw,
                >(out.decoded@)
                &&& writing(Format::Yaml, Request::encoding(out.decoded@)) == Some(out.as_yaml@)
                &&& writing(Format::Toml, Request::encoding(out.decoded@)) == Some(out.as_toml@)
            },
            Err(PipelineError::Parse(_)) => reading(Format::Json, input@) is None,
            Err(PipelineError::Decode(e)) => reading(Format::Json, input@) is Some
                && Request::decoding(reading(Format::Json, input@)->Some_0) == Err::<
                RequestView,
                Flaw,
            >(e@),
            Err(PipelineError::Render(e)) => {
                &&& e is Refused
                &&& reading(Format::Json, input@) is Some
                &&& Request::decoding(reading(Format::Json, input@)->Some_0) is Ok
                &&& {
                    let tree = Request::encoding(
                        Request::decoding(reading(Format::Json, input@)->Some_0)->Ok_0,
                    );
                    writing(Format::Yaml, tree) is None || writing(Format::Toml, tree) is None
                }
            },
        },
{
    let decoded = match read_request(input) {
        Ok(request) => request,
        Err(e) => return Err(e),
    };
    let as_yaml = match write_request(&decoded, Format::Yaml) {
        Ok(text) => text,
        Err(e) => return Err(PipelineError::Render(e)),
    };
    let as_toml = match write_request(&decoded, Format::Toml) {
        Ok(text) => text,
        Err(e) => return Err(PipelineError::Render(e)),
    };
    Ok(Output { decoded, as_yaml, as_toml })
}

} // verus!
