//! The Gemini back end: URLs of the Generative Language API, the body of a
//! `generateContent` request, and how its replies and errors are read.
//!
//! Reply bodies are decoded into the types below by the caller; the functions
//! here take that decoding's outcome (the value, or the decoder's error text).

use vstd::prelude::*;
use crate::constants::{
    GEMINI_API_ORIGIN, GEMINI_GENERATE_CONTENT_ACTION, GEMINI_MODELS_PATH,
};
use crate::prompting::{
    http_status_error, http_status_text, parse_error, parse_error_text, text_result,
};
use crate::json_text::{json_string, json_string_literal};
use crate::text::{chars_of, push_all, push_str, string_of, trim, trimmed_chars};

verus! {

/// `{"error": {"message": ...}}`: the error body of a failed Gemini request.
pub struct GeminiErrorBody {
    pub error: Option<GeminiError>,
}

/// The `error` object of a Gemini reply.
pub struct GeminiError {
    pub message: Option<String>,
}

/// The reply of `generateContent`: an error, or candidates whose parts carry text.
pub struct GenerateResponse {
    pub error: Option<GeminiError>,
    pub candidates: Option<Vec<Candidate>>,
}

/// One candidate answer.
pub struct Candidate {
    pub content: Option<Content>,
}

/// The content of a candidate.
pub struct Content {
    pub parts: Option<Vec<Part>>,
}

/// One part of a candidate's content.
pub struct Part {
    pub text: Option<String>,
}

/// The reply of GET `/v1beta/models/{model}`.
pub struct ModelMetadata {
    pub name: Option<String>,
}

pub const MISSING_NAME_ERROR: &'static str = "Missing name in Gemini model body";
pub const MISSING_TEXT_ERROR: &'static str = "Missing text in Gemini body";

// ---------------------------------------------------------------------------
// Specifications
// ---------------------------------------------------------------------------

/// The `generateContent` URL: `{origin}{models path}/{model}:generateContent?key={api_key}`.
pub open spec fn gemini_generate_url_text(model: Seq<char>, api_key: Seq<char>) -> Seq<char> {
    GEMINI_API_ORIGIN@ + GEMINI_MODELS_PATH@ + "/"@ + model + ":"@ + GEMINI_GENERATE_CONTENT_ACTION@
        + "?key="@ + api_key
}

/// The JSON body of `generateContent` for `prompt`.
pub open spec fn generate_request_text(prompt: Seq<char>) -> Seq<char> {
    "{\"contents\":[{\"parts\":[{\"text\":"@ + json_string_literal(prompt) + "}]}]}"@
}

/// The non-empty `message` of a Gemini error object, if any.
pub open spec fn error_message(error: Option<GeminiError>) -> Option<Seq<char>> {
    match error {
        Some(e) => match e.message {
            Some(m) => if m@.len() > 0 {
                Some(m@)
            } else {
                None
            },
            None => None,
        },
        None => None,
    }
}

/// The text of `parts` that carry text, concatenated.
pub open spec fn parts_text(parts: Seq<Part>) -> Seq<char>
    decreases parts.len(),
{
    if parts.len() == 0 {
        Seq::empty()
    } else {
        parts_text(parts.drop_last()) + match parts.last().text {
            Some(t) => t@,
            None => Seq::empty(),
        }
    }
}

/// The text of one candidate.
pub open spec fn candidate_text(c: Candidate) -> Seq<char> {
    match c.content {
        Some(content) => match content.parts {
            Some(parts) => parts_text(parts@),
            None => Seq::empty(),
        },
        None => Seq::empty(),
    }
}

/// The text of all candidates, concatenated in order.
pub open spec fn candidates_text(cs: Seq<Candidate>) -> Seq<char>
    decreases cs.len(),
{
    if cs.len() == 0 {
        Seq::empty()
    } else {
        candidates_text(cs.drop_last()) + candidate_text(cs.last())
    }
}

/// The text of a `generateContent` reply.
pub open spec fn response_text(r: GenerateResponse) -> Seq<char> {
    match r.candidates {
        Some(cs) => candidates_text(cs@),
        None => Seq::empty(),
    }
}

/// What reading a decoded `generateContent` reply gives: the decoder's error,
/// the reply's error message, an error for a reply without text, or the text.
pub open spec fn generate_outcome(parsed: Result<GenerateResponse, String>) -> Result<
    Seq<char>,
    Seq<char>,
> {
    match parsed {
        Err(e) => Err(parse_error_text(e@)),
        Ok(r) => match error_message(r.error) {
            Some(m) => Err(m),
            None => if response_text(r).len() == 0 {
                Err(MISSING_TEXT_ERROR@)
            } else {
                Ok(response_text(r))
            },
        },
    }
}

/// What reading decoded model metadata gives: the decoder's error, an error
/// for a missing or empty `name`, or success.
pub open spec fn metadata_outcome(parsed: Result<ModelMetadata, String>) -> Result<(), Seq<char>> {
    match parsed {
        Err(e) => Err(parse_error_text(e@)),
        Ok(m) => match m.name {
            Some(n) => if n@.len() > 0 {
                Ok(())
            } else {
                Err(MISSING_NAME_ERROR@)
            },
            None => Err(MISSING_NAME_ERROR@),
        },
    }
}

/// The error text of a failed request: the body's Gemini error message when it
/// decodes to one, else `HTTP {status}`.
pub open spec fn http_error_text(status: u16, body: Option<GeminiErrorBody>) -> Seq<char> {
    match body {
        Some(b) => match error_message(b.error) {
            Some(m) => m,
            None => http_status_text(status),
        },
        None => http_status_text(status),
    }
}

// ---------------------------------------------------------------------------
// Executable functions
// ---------------------------------------------------------------------------

/// Return the Gemini `generateContent` URL for `model` and `api_key`.
pub fn gemini_generate_url(model: &str, api_key: &str) -> (r: String)
    ensures
        r@ == gemini_generate_url_text(model@, api_key@),
{
    let mut out = chars_of(GEMINI_API_ORIGIN);
    push_str(&mut out, GEMINI_MODELS_PATH);
    push_str(&mut out, "/");
    push_str(&mut out, model);
    push_str(&mut out, ":");
    push_str(&mut out, GEMINI_GENERATE_CONTENT_ACTION);
    push_str(&mut out, "?key=");
    push_str(&mut out, api_key);
    string_of(&out)
}

/// Return the JSON body for POST `{model}:generateContent`: the prompt as the
/// text of the single part of the single content.
pub fn generate_request_body(prompt: &str) -> (r: String)
    ensures
        r@ == generate_request_text(prompt@),
{
    let mut out = chars_of("{\"contents\":[{\"parts\":[{\"text\":");
    let quoted = json_string(prompt);
    push_str(&mut out, quoted.as_str());
    push_str(&mut out, "}]}]}");
    string_of(&out)
}

/// The non-empty message of a Gemini error object.
fn message_of(error: &Option<GeminiError>) -> (r: Option<String>)
    ensures
        match r {
            Some(m) => error_message(*error) == Some(m@),
            None => error_message(*error) is None,
        },
{
    match error {
        Some(e) => match &e.message {
            Some(m) => {
                if !m.as_str().is_empty() {
                    Some(m.clone())
                } else {
                    None
                }
            },
            None => None,
        },
        None => None,
    }
}

/// The text of `parts`, concatenated.
fn parts_text_chars(parts: &Vec<Part>) -> (r: Vec<char>)
    ensures
        r@ == parts_text(parts@),
{
    let mut out: Vec<char> = Vec::new();
    let n = parts.len();
    let mut i: usize = 0;
    while i < n
        invariant
            n == parts@.len(),
            i <= n,
            out@ == parts_text(parts@.take(i as int)),
        decreases n - i,
    {
        assert(parts@.take(i + 1).drop_last() == parts@.take(i as int));
        assert(parts@.take(i + 1).last() == parts@[i as int]);
        match &parts[i].text {
            Some(t) => push_str(&mut out, t.as_str()),
            None => {},
        }
        assert(out@ == parts_text(parts@.take(i + 1)));
        i = i + 1;
    }
    assert(parts@.take(n as int) == parts@);
    out
}

/// The text of `cs`, concatenated.
fn candidates_text_chars(cs: &Vec<Candidate>) -> (r: Vec<char>)
    ensures
        r@ == candidates_text(cs@),
{
    let mut out: Vec<char> = Vec::new();
    let n = cs.len();
    let mut i: usize = 0;
    while i < n
        invariant
            n == cs@.len(),
            i <= n,
            out@ == candidates_text(cs@.take(i as int)),
        decreases n - i,
    {
        assert(cs@.take(i + 1).drop_last() == cs@.take(i as int));
        assert(cs@.take(i + 1).last() == cs@[i as int]);
        match &cs[i].content {
            Some(content) => match &content.parts {
                Some(parts) => {
                    let t = parts_text_chars(parts);
                    push_all(&mut out, &t);
                },
                None => {},
            },
            None => {},
        }
        assert(out@ == candidates_text(cs@.take(i + 1)));
        i = i + 1;
    }
    assert(cs@.take(n as int) == cs@);
    out
}

/// Read decoded model metadata: it must name a model.
pub fn parse_model_metadata(parsed: Result<ModelMetadata, String>) -> (r: Result<(), String>)
    ensures
        match r {
            Ok(()) => metadata_outcome(parsed) == Ok::<(), Seq<char>>(()),
            Err(e) => metadata_outcome(parsed) == Err::<(), Seq<char>>(e@),
        },
{
    match parsed {
        Err(e) => Err(parse_error(e.as_str())),
        Ok(m) => match m.name {
            Some(n) => {
                if !n.as_str().is_empty() {
                    Ok(())
                } else {
                    Err(MISSING_NAME_ERROR.to_string())
                }
            },
            None => Err(MISSING_NAME_ERROR.to_string()),
        },
    }
}

/// Read a decoded `generateContent` reply and return its concatenated candidate text.
pub fn parse_generate_response(parsed: Result<GenerateResponse, String>) -> (r: Result<String, String>)
    ensures
        text_result(r) == generate_outcome(parsed),
{
    match parsed {
        Err(e) => Err(parse_error(e.as_str())),
        Ok(resp) => {
            match message_of(&resp.error) {
                Some(m) => {
                    return Err(m);
                },
                None => {},
            }
            let text = match &resp.candidates {
                Some(cs) => candidates_text_chars(cs),
                None => Vec::new(),
            };
            if text.len() == 0 {
                Err(MISSING_TEXT_ERROR.to_string())
            } else {
                Ok(string_of(&text))
            }
        },
    }
}

/// Return an HTTP error string, preferring a Gemini `error.message` when the
/// body decoded to one.
pub fn http_error(status: u16, body: Option<GeminiErrorBody>) -> (r: String)
    ensures
        r@ == http_error_text(status, body),
{
    match &body {
        Some(b) => match message_of(&b.error) {
            Some(m) => m,
            None => http_status_error(status),
        },
        None => http_status_error(status),
    }
}

/// `Gemini connection ready: {origin}`: the console line after a successful probe.
pub open spec fn ready_log_text() -> Seq<char> {
    "Gemini connection ready: "@ + GEMINI_API_ORIGIN@
}

/// `Gemini init failed: {error}. Prompt send will be unavailable.`
pub open spec fn init_failed_text(error: Seq<char>) -> Seq<char> {
    "Gemini init failed: "@ + error + ". Prompt send will be unavailable."@
}

/// Return the console message for a successful Gemini connection.
pub fn gemini_ready_log() -> (r: String)
    ensures
        r@ == ready_log_text(),
{
    let mut out = chars_of("Gemini connection ready: ");
    push_str(&mut out, GEMINI_API_ORIGIN);
    string_of(&out)
}

/// Return the console warning for a failed Gemini probe.
pub fn gemini_init_failed_log(error: &str) -> (r: String)
    ensures
        r@ == init_failed_text(error@),
{
    let mut out = chars_of("Gemini init failed: ");
    push_str(&mut out, error);
    push_str(&mut out, ". Prompt send will be unavailable.");
    string_of(&out)
}

/// Whether a probe can be made: neither the API key nor the model is blank.
/// With either blank Gemini is unavailable and no request is sent.
pub fn gemini_probe_ready(api_key: &str, model: &str) -> (r: bool)
    ensures
        r == (trim(api_key@).len() > 0 && trim(model@).len() > 0),
{
    let k = trimmed_chars(api_key);
    let m = trimmed_chars(model);
    k.len() > 0 && m.len() > 0
}

} // verus!
