//! Prompts sent to a language model and the two model back ends (Ollama, Gemini):
//! their URLs, request bodies, and how their replies are read.

pub mod create_prompt;
pub mod gemini_adapter;
pub mod ollama_adapter;

use vstd::prelude::*;
use crate::text::{chars_of, decimal, decimal_exec, push_all, string_of};

verus! {

/// A `Result` of strings seen as character sequences.
pub open spec fn text_result(r: Result<String, String>) -> Result<Seq<char>, Seq<char>> {
    match r {
        Ok(t) => Ok(t@),
        Err(e) => Err(e@),
    }
}

/// Whether an HTTP status is a success (2xx).
pub open spec fn is_success(status: u16) -> bool {
    200 <= status < 300
}

/// `HTTP {status}`: the error of a failed request whose body names no error.
pub open spec fn http_status_text(status: u16) -> Seq<char> {
    "HTTP "@ + decimal(status as nat)
}

/// `Parse error: {error}`: the error of a reply body that could not be decoded.
pub open spec fn parse_error_text(error: Seq<char>) -> Seq<char> {
    "Parse error: "@ + error
}

/// Whether `status` is in `200..300`.
pub fn is_success_status(status: u16) -> (r: bool)
    ensures
        r == is_success(status),
{
    200 <= status && status < 300
}

/// Return `HTTP {status}`.
pub fn http_status_error(status: u16) -> (r: String)
    ensures
        r@ == http_status_text(status),
{
    let mut out = chars_of("HTTP ");
    let digits = decimal_exec(status as usize);
    push_all(&mut out, &digits);
    string_of(&out)
}

/// Return `Parse error: {error}`.
pub fn parse_error(error: &str) -> (r: String)
    ensures
        r@ == parse_error_text(error@),
{
    let mut out = chars_of("Parse error: ");
    let e = chars_of(error);
    push_all(&mut out, &e);
    string_of(&out)
}

} // verus!
