//! The Ollama back end: same-origin URLs of its HTTP API and how its replies
//! and errors are read.
//!
//! Reply bodies are decoded into the types below by the caller; the functions
//! here take that decoding's outcome (the value, or the decoder's error text).

use vstd::prelude::*;
use crate::constants::OLLAMA_URL;
use crate::prompting::{http_status_error, http_status_text, parse_error, parse_error_text, text_result};
use crate::text::{chars_of, push_str, string_of};

verus! {

/// The reply of GET `/api/tags`.
pub struct TagsResponse {
    pub models: Vec<TagsModel>,
}

/// One installed model.
pub struct TagsModel {
    pub name: String,
}

/// The reply of a non-streaming POST `/api/generate`.
pub struct GenerateResponse {
    pub response: Option<String>,
    pub error: Option<String>,
}

pub const MISSING_RESPONSE_ERROR: &'static str = "Missing response in Ollama body";

/// The names of the installed models, in order.
pub open spec fn model_names(models: Seq<TagsModel>) -> Seq<Seq<char>> {
    Seq::new(models.len(), |i: int| models[i].name@)
}

/// The non-empty `error` of a generate reply, if any.
pub open spec fn error_of(r: GenerateResponse) -> Option<Seq<char>> {
    match r.error {
        Some(e) => if e@.len() > 0 {
            Some(e@)
        } else {
            None
        },
        None => None,
    }
}

/// What reading a decoded generate reply gives: the decoder's error, the
/// reply's error, an error for a missing `response`, or the response text.
pub open spec fn generate_outcome(parsed: Result<GenerateResponse, String>) -> Result<
    Seq<char>,
    Seq<char>,
> {
    match parsed {
        Err(e) => Err(parse_error_text(e@)),
        Ok(r) => match error_of(r) {
            Some(e) => Err(e),
            None => match r.response {
                Some(t) => Ok(t@),
                None => Err(MISSING_RESPONSE_ERROR@),
            },
        },
    }
}

/// The error text of a failed request: the body's `error` when it decodes to a
/// generate reply that has one, else `HTTP {status}`.
pub open spec fn http_error_text(status: u16, body: Option<GenerateResponse>) -> Seq<char> {
    match body {
        Some(b) => match error_of(b) {
            Some(e) => e,
            None => http_status_text(status),
        },
        None => http_status_text(status),
    }
}

/// Return the same-origin Ollama origin. The dev server proxies it to the
/// local Ollama port, so `port` does not change the URL.
pub fn ollama_base_url(port: u16) -> (r: String)
    ensures
        r@ == OLLAMA_URL@,
{
    OLLAMA_URL.to_string()
}

/// Return the same-origin Ollama URL for `path`.
pub fn ollama_url(port: u16, path: &str) -> (r: String)
    ensures
        r@ == OLLAMA_URL@ + path@,
{
    let base = ollama_base_url(port);
    let mut out = chars_of(base.as_str());
    push_str(&mut out, path);
    string_of(&out)
}

/// Read a decoded `/api/tags` reply and return the installed model names.
pub fn parse_model_names(parsed: Result<TagsResponse, String>) -> (r: Result<Vec<String>, String>)
    ensures
        match parsed {
            Err(e) => r matches Err(m) && m@ == parse_error_text(e@),
            Ok(t) => r matches Ok(names) && names@.len() == t.models@.len() && forall|i: int|
                0 <= i < names@.len() ==> #[trigger] names@[i]@ == model_names(t.models@)[i],
        },
{
    match parsed {
        Err(e) => Err(parse_error(e.as_str())),
        Ok(t) => {
            let mut names: Vec<String> = Vec::new();
            let n = t.models.len();
            let mut i: usize = 0;
            while i < n
                invariant
                    n == t.models@.len(),
                    i <= n,
                    names@.len() == i,
                    forall|j: int| 0 <= j < i ==> #[trigger] names@[j]@ == t.models@[j].name@,
                decreases n - i,
            {
                names.push(t.models[i].name.clone());
                i = i + 1;
            }
            Ok(names)
        },
    }
}

/// The non-empty `error` of a generate reply.
fn error_text(r: &GenerateResponse) -> (e: Option<String>)
    ensures
        match e {
            Some(t) => error_of(*r) == Some(t@),
            None => error_of(*r) is None,
        },
{
    match &r.error {
        Some(e) => {
            if !e.as_str().is_empty() {
                Some(e.clone())
            } else {
                None
            }
        },
        None => None,
    }
}

/// Read a decoded non-streaming `/api/generate` reply and return the completion text.
pub fn parse_generate_response(parsed: Result<GenerateResponse, String>) -> (r: Result<String, String>)
    ensures
        text_result(r) == generate_outcome(parsed),
{
    match parsed {
        Err(e) => Err(parse_error(e.as_str())),
        Ok(resp) => match error_text(&resp) {
            Some(e) => Err(e),
            None => match resp.response {
                Some(t) => Ok(t),
                None => Err(MISSING_RESPONSE_ERROR.to_string()),
            },
        },
    }
}

/// Return an HTTP error string, preferring an Ollama `error` field when the
/// body decoded to one.
pub fn http_error(status: u16, body: Option<GenerateResponse>) -> (r: String)
    ensures
        r@ == http_error_text(status, body),
{
    match &body {
        Some(b) => match error_text(b) {
            Some(e) => e,
            None => http_status_error(status),
        },
        None => http_status_error(status),
    }
}

} // verus!
