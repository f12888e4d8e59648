//! Reads a provider's HTTP reply into the text it carries or a failure.
use vstd::prelude::*;
use crate::dispatch::{DispatchError, Failure};
use crate::json::{json_string_at, string_at, JsonLookup};
use crate::provider::Provider;

verus! {

/// What a provider sent back: the status code and the body as text.
#[derive(Debug, Clone)]
pub struct HttpReply {
    pub status: u16,
    pub body: String,
}

/// The description carried by `TransportError` when a success reply is not
/// JSON.
pub const NOT_JSON: &'static str = "response body is not valid JSON";

/// A 2xx status.
pub open spec fn is_success(status: u16) -> bool {
    200 <= status <= 299
}

/// Where the transcript stands in a transcription reply.
pub open spec fn transcript_pointer() -> Seq<char> {
    "/text"@
}

/// Where the cleaned text stands in a provider's chat reply: Anthropic's
/// `content[0].text`, everyone else's `choices[0].message.content`.
pub open spec fn reply_pointer(p: Provider) -> Seq<char> {
    if p == Provider::Anthropic {
        "/content/0/text"@
    } else {
        "/choices/0/message/content"@
    }
}

/// The outcome of a reply, given what the lookup of its text field found: a
/// non-success status carries the body as `ProviderError`; a body that is
/// not JSON is a `TransportError`; a JSON body without the text field is
/// `MalformedResponse`.
pub open spec fn reply_outcome(status: u16, body: Seq<char>, lookup: Option<Option<Seq<char>>>) -> Result<
    Seq<char>,
    Failure,
> {
    if !is_success(status) {
        Err(Failure::ProviderError(body))
    } else {
        match lookup {
            None => Err(Failure::TransportError(NOT_JSON@)),
            Some(None) => Err(Failure::MalformedResponse),
            Some(Some(t)) => Ok(t),
        }
    }
}

pub open spec fn result_view(r: Result<String, DispatchError>) -> Result<Seq<char>, Failure> {
    match r {
        Ok(s) => Ok(s@),
        Err(e) => Err(e@),
    }
}

/// Decides the outcome of a reply from its status, its body and what the
/// lookup of the text field in the body found.
pub fn reply_text(status: u16, body: String, lookup: JsonLookup) -> (r: Result<String, DispatchError>)
    ensures
        result_view(r) == reply_outcome(status, body@, lookup@),
{
    if status < 200 || status > 299 {
        return Err(DispatchError::ProviderError(body));
    }
    match lookup {
        JsonLookup::NotJson => Err(DispatchError::TransportError(String::from_str(NOT_JSON))),
        JsonLookup::Absent => Err(DispatchError::MalformedResponse),
        JsonLookup::Found(t) => Ok(t),
    }
}

fn text_at(reply: &HttpReply, pointer: &str) -> (r: Result<String, DispatchError>)
    ensures
        result_view(r) == reply_outcome(reply.status, reply.body@, json_string_at(reply.body@, pointer@)),
{
    if reply.status < 200 || reply.status > 299 {
        return Err(DispatchError::ProviderError(reply.body.clone()));
    }
    let lookup = string_at(reply.body.as_str(), pointer);
    reply_text(reply.status, reply.body.clone(), lookup)
}

/// The transcript in a transcription reply: its `text` field.
pub fn transcription_text(reply: &HttpReply) -> (r: Result<String, DispatchError>)
    ensures
        result_view(r) == reply_outcome(
            reply.status,
            reply.body@,
            json_string_at(reply.body@, transcript_pointer()),
        ),
{
    text_at(reply, "/text")
}

/// A transcription reply read to its end: the result for the caller, and
/// whether the source recording is now to be deleted. Deletion is
/// best-effort: whatever comes of it, the caller returns `result` unchanged.
#[derive(Debug)]
pub struct TranscriptionOutcome {
    pub result: Result<String, DispatchError>,
    pub delete_source: bool,
}

/// Reads a transcription reply and decides the cleanup: the recording is
/// forgotten exactly when its transcript was obtained.
pub fn conclude_transcription(reply: &HttpReply) -> (r: TranscriptionOutcome)
    ensures
        result_view(r.result) == reply_outcome(
            reply.status,
            reply.body@,
            json_string_at(reply.body@, transcript_pointer()),
        ),
        r.delete_source <==> r.result is Ok,
{
    let result = transcription_text(reply);
    let delete_source = result.is_ok();
    TranscriptionOutcome { result, delete_source }
}

/// The cleaned text in a formatting reply of provider `p`.
pub fn formatted_text(p: Provider, reply: &HttpReply) -> (r: Result<String, DispatchError>)
    ensures
        result_view(r) == reply_outcome(
            reply.status,
            reply.body@,
            json_string_at(reply.body@, reply_pointer(p)),
        ),
{
    if matches!(p, Provider::Anthropic) {
        text_at(reply, "/content/0/text")
    } else {
        text_at(reply, "/choices/0/message/content")
    }
}

} // verus!
