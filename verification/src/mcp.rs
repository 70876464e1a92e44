//! The MCP backend protocol as the notes frontend speaks it: the JSON-RPC
//! request bodies it sends, how the session header is recognised, how the
//! first event of a server-sent-events reply is found, how a tool's reply
//! is judged, and which id each tool call carries. The HTTP exchange itself
//! is the caller's.

use vstd::prelude::*;
use crate::app_state::{bump, bumped};
use crate::hotkeys::{ascii_lower, ascii_lower_exec};
use crate::import::{JsonScalar, JsonValue, ScalarModel, ValueModel};
use crate::json_text::{json_string, json_string_literal};
use crate::text::{
    chars_of, decimal, decimal_exec, decimal_u64_exec, lines, lines_exec, push_all, push_str, slice_of,
    starts_with_str, string_of, strip_prefix, texts, trim, trim_exec,
};

verus! {

pub const MCP_SESSION_HEADER: &'static str = "mcp-session-id";
pub const MCP_PROTOCOL_VERSION: &'static str = "2024-11-05";
pub const MCP_CLIENT_NAME: &'static str = "notezilla-leptos";
pub const MCP_CLIENT_VERSION: &'static str = "0.1.0";
pub const EMPTY_RESULT_ERROR: &'static str = "Empty RPC result";
pub const MISSING_NOTES_ERROR: &'static str = "Missing notes in MCP response";
pub const NO_SESSION_HEADER_ERROR: &'static str = "No mcp-session-id header in initialize response";
pub const SESSION_NOT_READY: &'static str = "MCP session not ready";

/// The tool-call part of a JSON-RPC reply that carried a `result`: the text
/// at `/content/0/text` when it is a string, the result written out as JSON,
/// its `structuredContent` written out as JSON when it has one, and the
/// `warnings` of that `structuredContent`.
pub struct ToolReply {
    pub message: Option<String>,
    pub result_text: String,
    pub structured: Option<String>,
    pub warnings: Option<JsonValue>,
}

/// A JSON-RPC reply: its `result`, and its `error` written out as JSON.
pub struct RpcReply {
    pub result: Option<ToolReply>,
    pub error: Option<String>,
}

/// How a tool call ended: the warnings to show, and the structured payload
/// (as JSON text) or the error text.
pub struct ToolOutcome {
    pub warnings: Vec<String>,
    pub result: Result<String, String>,
}

// ---------------------------------------------------------------------------
// Request bodies
//
// Each object lists its keys in sorted order, as serde_json writes its maps.
// ---------------------------------------------------------------------------

/// The body of the `initialize` request.
pub open spec fn initialize_text() -> Seq<char> {
    "{\"id\":0,\"jsonrpc\":\"2.0\",\"method\":\"initialize\",\"params\":{\"capabilities\":{},\"clientInfo\":{\"name\":\"notezilla-leptos\",\"version\":\"0.1.0\"},\"protocolVersion\":\"2024-11-05\"}}"@
}

/// The body of the `notifications/initialized` notification.
pub open spec fn initialized_text() -> Seq<char> {
    "{\"jsonrpc\":\"2.0\",\"method\":\"notifications/initialized\"}"@
}

/// The body of a `tools/call` request with identifier `id`.
pub open spec fn tool_call_text(id: u64, tool: Seq<char>, arguments: Seq<char>) -> Seq<char> {
    "{\"id\":"@ + decimal(id as nat) + ",\"jsonrpc\":\"2.0\",\"method\":\"tools/call\",\"params\":{\"arguments\":"@
        + arguments + ",\"name\":"@ + json_string_literal(tool) + "}}"@
}

/// Arguments `{"path": path}`.
pub open spec fn path_arguments_text(path: Seq<char>) -> Seq<char> {
    "{\"path\":"@ + json_string_literal(path) + "}"@
}

/// Arguments `{"dst": dst, "src": src}`.
pub open spec fn move_arguments_text(src: Seq<char>, dst: Seq<char>) -> Seq<char> {
    "{\"dst\":"@ + json_string_literal(dst) + ",\"src\":"@ + json_string_literal(src) + "}"@
}

/// Arguments `{"new_name": new_name, "path": path}`.
pub open spec fn rename_arguments_text(path: Seq<char>, new_name: Seq<char>) -> Seq<char> {
    "{\"new_name\":"@ + json_string_literal(new_name) + ",\"path\":"@ + json_string_literal(path)
        + "}"@
}

/// Arguments of `search_notes`.
pub open spec fn search_arguments_text(
    text: Seq<char>,
    frontmatter: Seq<char>,
    path_filter: Seq<char>,
    n_results: nat,
    offset: nat,
) -> Seq<char> {
    "{\"frontmatter\":"@ + json_string_literal(frontmatter) + ",\"n_results\":"@ + decimal(n_results)
        + ",\"offset\":"@ + decimal(offset) + ",\"path_filter\":"@ + json_string_literal(path_filter)
        + ",\"text\":"@ + json_string_literal(text) + "}"@
}

/// Arguments of `upsert_note`; `fields` is already JSON.
pub open spec fn upsert_arguments_text(path: Seq<char>, contents: Seq<char>, fields: Seq<char>) -> Seq<char> {
    "{\"contents\":"@ + json_string_literal(contents) + ",\"fields\":"@ + fields + ",\"path\":"@
        + json_string_literal(path) + "}"@
}

/// Return the body of the `initialize` request.
pub fn initialize_request_body() -> (r: String)
    ensures
        r@ == initialize_text(),
{
    string_of(&chars_of("{\"id\":0,\"jsonrpc\":\"2.0\",\"method\":\"initialize\",\"params\":{\"capabilities\":{},\"clientInfo\":{\"name\":\"notezilla-leptos\",\"version\":\"0.1.0\"},\"protocolVersion\":\"2024-11-05\"}}"))
}

/// Return the body of the `notifications/initialized` notification.
pub fn initialized_notification_body() -> (r: String)
    ensures
        r@ == initialized_text(),
{
    string_of(&chars_of("{\"jsonrpc\":\"2.0\",\"method\":\"notifications/initialized\"}"))
}

/// Append the JSON string literal of `text`.
fn push_json(out: &mut Vec<char>, text: &str)
    ensures
        final(out)@ == old(out)@ + json_string_literal(text@),
{
    let quoted = json_string(text);
    push_str(out, quoted.as_str());
}

/// Return the body of a `tools/call` request for `tool` with JSON `arguments`.
pub fn tool_call_body(id: u64, tool: &str, arguments: &str) -> (r: String)
    ensures
        r@ == tool_call_text(id, tool@, arguments@),
{
    let mut out = chars_of("{\"id\":");
    let digits = decimal_u64_exec(id);
    push_all(&mut out, &digits);
    push_str(&mut out, ",\"jsonrpc\":\"2.0\",\"method\":\"tools/call\",\"params\":{\"arguments\":");
    push_str(&mut out, arguments);
    push_str(&mut out, ",\"name\":");
    push_json(&mut out, tool);
    push_str(&mut out, "}}");
    string_of(&out)
}

/// Return the arguments `{"path": path}`.
pub fn path_arguments(path: &str) -> (r: String)
    ensures
        r@ == path_arguments_text(path@),
{
    let mut out = chars_of("{\"path\":");
    push_json(&mut out, path);
    push_str(&mut out, "}");
    string_of(&out)
}

/// Return the arguments `{"dst": dst, "src": src}`.
pub fn move_arguments(src: &str, dst: &str) -> (r: String)
    ensures
        r@ == move_arguments_text(src@, dst@),
{
    let mut out = chars_of("{\"dst\":");
    push_json(&mut out, dst);
    push_str(&mut out, ",\"src\":");
    push_json(&mut out, src);
    push_str(&mut out, "}");
    string_of(&out)
}

/// Return the arguments `{"new_name": new_name, "path": path}`.
pub fn rename_arguments(path: &str, new_name: &str) -> (r: String)
    ensures
        r@ == rename_arguments_text(path@, new_name@),
{
    let mut out = chars_of("{\"new_name\":");
    push_json(&mut out, new_name);
    push_str(&mut out, ",\"path\":");
    push_json(&mut out, path);
    push_str(&mut out, "}");
    string_of(&out)
}

/// Return the arguments of `search_notes`.
pub fn search_arguments(
    text: &str,
    frontmatter: &str,
    path_filter: &str,
    n_results: usize,
    offset: usize,
) -> (r: String)
    ensures
        r@ == search_arguments_text(text@, frontmatter@, path_filter@, n_results as nat, offset as nat),
{
    let mut out = chars_of("{\"frontmatter\":");
    push_json(&mut out, frontmatter);
    push_str(&mut out, ",\"n_results\":");
    let n = decimal_exec(n_results);
    push_all(&mut out, &n);
    push_str(&mut out, ",\"offset\":");
    let o = decimal_exec(offset);
    push_all(&mut out, &o);
    push_str(&mut out, ",\"path_filter\":");
    push_json(&mut out, path_filter);
    push_str(&mut out, ",\"text\":");
    push_json(&mut out, text);
    push_str(&mut out, "}");
    string_of(&out)
}

/// Return the arguments of `upsert_note`; `fields` is already JSON.
pub fn upsert_arguments(path: &str, contents: &str, fields: &str) -> (r: String)
    ensures
        r@ == upsert_arguments_text(path@, contents@, fields@),
{
    let mut out = chars_of("{\"contents\":");
    push_json(&mut out, contents);
    push_str(&mut out, ",\"fields\":");
    push_str(&mut out, fields);
    push_str(&mut out, ",\"path\":");
    push_json(&mut out, path);
    push_str(&mut out, "}");
    string_of(&out)
}

// ---------------------------------------------------------------------------
// Replies
// ---------------------------------------------------------------------------

/// Whether header name `name` is the session header, ignoring ASCII case.
pub open spec fn is_session_header(name: Seq<char>) -> bool {
    &&& name.len() == MCP_SESSION_HEADER@.len()
    &&& forall|i: int| 0 <= i < name.len() ==> #[trigger] ascii_lower(name[i]) == ascii_lower(
        MCP_SESSION_HEADER@[i],
    )
}

/// Return whether header name `name` is `mcp-session-id`, ignoring ASCII case.
pub fn session_header_matches(name: &str) -> (r: bool)
    ensures
        r == is_session_header(name@),
{
    let a = chars_of(name);
    let b = chars_of(MCP_SESSION_HEADER);
    if a.len() != b.len() {
        return false;
    }
    let mut i: usize = 0;
    while i < a.len()
        invariant
            a@ == name@,
            b@ == MCP_SESSION_HEADER@,
            a@.len() == b@.len(),
            i <= a@.len(),
            forall|j: int| 0 <= j < i ==> #[trigger] ascii_lower(a@[j]) == ascii_lower(b@[j]),
        decreases a@.len() - i,
    {
        if ascii_lower_exec(a[i]) != ascii_lower_exec(b[i]) {
            return false;
        }
        i = i + 1;
    }
    true
}

/// The JSON payload of the first `data:` line of an event stream whose
/// payload is neither blank nor `[DONE]`.
pub open spec fn sse_payload_of(ls: Seq<Seq<char>>) -> Option<Seq<char>>
    decreases ls.len(),
{
    if ls.len() == 0 {
        None
    } else {
        match strip_prefix(ls[0], "data:"@) {
            Some(rest) => {
                let t = trim(rest);
                if t.len() == 0 || t == "[DONE]"@ {
                    sse_payload_of(ls.drop_first())
                } else {
                    Some(t)
                }
            },
            None => sse_payload_of(ls.drop_first()),
        }
    }
}

/// Return the first JSON-RPC payload of an event-stream body (the text of its
/// first `data:` line that is neither blank nor `[DONE]`), if there is one.
pub fn sse_data_payload(body: &str) -> (r: Option<String>)
    ensures
        match r {
            Some(p) => sse_payload_of(lines(body@)) == Some(p@),
            None => sse_payload_of(lines(body@)) is None,
        },
{
    let ls = lines_exec(&chars_of(body));
    let n = ls.len();
    let mut i: usize = 0;
    let ghost all = texts(ls@);
    assert(all.subrange(0, n as int) =~= all);
    while i < n
        invariant
            n == ls@.len(),
            i <= n,
            all == texts(ls@),
            all == lines(body@),
            sse_payload_of(all) == sse_payload_of(all.subrange(i as int, n as int)),
        decreases n - i,
    {
        let line = &ls[i];
        let ghost rest = all.subrange(i as int, n as int);
        assert(rest[0] == line@);
        assert(rest.drop_first() =~= all.subrange(i + 1, n as int));
        if starts_with_str(line, "data:") {
            proof {
                reveal_strlit("data:");
            }
            assert("data:"@.len() == 5);
            let tail = slice_of(line, 5, line.len());
            assert(strip_prefix(line@, "data:"@) == Some(tail@));
            let t = trim_exec(&tail);
            if t.len() > 0 && !crate::hotkeys::text_is(&t, "[DONE]") {
                return Some(string_of(&t));
            }
        }
        i = i + 1;
    }
    None
}

/// The trimmed payload of a `data:` line.
pub open spec fn data_line_payload(line: Seq<char>) -> Option<Seq<char>> {
    match strip_prefix(line, "data:"@) {
        Some(rest) => Some(trim(rest)),
        None => None,
    }
}

/// The payload found in an event stream is never blank and never `[DONE]`,
/// and it is the payload of one of the stream's `data:` lines.
pub proof fn lemma_sse_payload_is_data(ls: Seq<Seq<char>>)
    ensures
        sse_payload_of(ls) matches Some(p) ==> (p.len() > 0 && p != "[DONE]"@ && exists|i: int|
            0 <= i < ls.len() && #[trigger] data_line_payload(ls[i]) == Some(p)),
    decreases ls.len(),
{
    if ls.len() > 0 {
        lemma_sse_payload_is_data(ls.drop_first());
        if let Some(p) = sse_payload_of(ls) {
            if data_line_payload(ls[0]) == Some(p) {
            } else {
                let i = choose|i: int|
                    0 <= i < ls.drop_first().len() && #[trigger] data_line_payload(ls.drop_first()[i])
                        == Some(p);
                assert(ls[i + 1] == ls.drop_first()[i]);
            }
        }
    }
}

/// Whether `line` is a `data:` line whose trimmed payload is neither blank
/// nor `[DONE]`.
pub open spec fn carries_payload(line: Seq<char>) -> bool {
    match data_line_payload(line) {
        Some(t) => t.len() > 0 && t != "[DONE]"@,
        None => false,
    }
}

/// The payload picked out of an event stream is that of its first `data:`
/// line carrying one: when line `i` carries payload `t` and no line before
/// it carries one, the payload is `t`; when no line carries one, there is
/// none.
pub proof fn lemma_sse_payload_is_first(ls: Seq<Seq<char>>)
    ensures
        forall|i: int|
            0 <= i < ls.len() && #[trigger] carries_payload(ls[i]) && (forall|j: int|
                0 <= j < i ==> !carries_payload(ls[j])) ==> sse_payload_of(ls) == data_line_payload(ls[i]),
        (forall|j: int| 0 <= j < ls.len() ==> !carries_payload(ls[j])) ==> sse_payload_of(ls) is None,
    decreases ls.len(),
{
    if ls.len() > 0 {
        let tail = ls.drop_first();
        lemma_sse_payload_is_first(tail);
        assert forall|i: int|
            0 <= i < ls.len() && #[trigger] carries_payload(ls[i]) && (forall|j: int|
                0 <= j < i ==> !carries_payload(ls[j])) implies sse_payload_of(ls) == data_line_payload(ls[i]) by {
            if i > 0 {
                assert(!carries_payload(ls[0]));
                assert(tail[i - 1] == ls[i]);
                assert forall|j: int| 0 <= j < i - 1 implies !carries_payload(tail[j]) by {
                    assert(tail[j] == ls[j + 1]);
                }
                assert(carries_payload(tail[i - 1]));
            }
        }
        if forall|j: int| 0 <= j < ls.len() ==> !carries_payload(ls[j]) {
            assert(!carries_payload(ls[0]));
            assert forall|j: int| 0 <= j < tail.len() implies !carries_payload(tail[j]) by {
                assert(tail[j] == ls[j + 1]);
            }
        }
    }
}

/// The non-empty string warnings of a tool payload's `warnings` value.
pub open spec fn warnings_of(items: Seq<ScalarModel>) -> Seq<Seq<char>>
    decreases items.len(),
{
    if items.len() == 0 {
        Seq::empty()
    } else {
        let rest = warnings_of(items.drop_last());
        match items.last() {
            ScalarModel::Str(s) => if s.len() > 0 {
                rest.push(s)
            } else {
                rest
            },
            _ => rest,
        }
    }
}

/// The warnings a `warnings` value carries: the non-empty strings of an array.
pub open spec fn warnings_value(w: Option<ValueModel>) -> Seq<Seq<char>> {
    match w {
        Some(ValueModel::Array(items)) => warnings_of(items),
        _ => Seq::empty(),
    }
}

/// The strings of a vector, as text.
pub open spec fn string_texts(v: Seq<String>) -> Seq<Seq<char>> {
    Seq::new(v.len(), |i: int| v[i]@)
}

/// Collect the non-empty `warnings` strings of a tool payload.
pub fn warnings_from_structured(warnings: &Option<JsonValue>) -> (r: Vec<String>)
    ensures
        string_texts(r@) == warnings_value(match warnings {
            Some(w) => Some(w@),
            None => None,
        }),
{
    let mut out: Vec<String> = Vec::new();
    match warnings {
        Some(JsonValue::Array(items)) => {
            let ghost model = Seq::new(items@.len(), |i: int| items@[i]@);
            let n = items.len();
            let mut i: usize = 0;
            assert(string_texts(out@) =~= warnings_of(model.take(0)));
            while i < n
                invariant
                    n == items@.len(),
                    i <= n,
                    model == Seq::new(items@.len(), |j: int| items@[j]@),
                    string_texts(out@) == warnings_of(model.take(i as int)),
                decreases n - i,
            {
                assert(model.take(i + 1).drop_last() =~= model.take(i as int));
                assert(model.take(i + 1).last() == items@[i as int]@);
                match &items[i] {
                    JsonScalar::Str(s) => {
                        if !s.as_str().is_empty() {
                            let ghost before = string_texts(out@);
                            out.push(s.clone());
                            assert(string_texts(out@) =~= before.push(s@));
                        }
                    },
                    _ => {},
                }
                i = i + 1;
            }
            assert(model.take(n as int) =~= model);
        },
        _ => {
            assert(string_texts(out@) =~= Seq::<Seq<char>>::empty());
        },
    }
    out
}

/// The structured payload that a successful tool call returns: the reply's
/// `structuredContent`, or an empty object when it has none.
pub open spec fn structured_text_of(r: ToolReply) -> Seq<char> {
    match r.structured {
        Some(s) => s@,
        None => "{}"@,
    }
}

/// How a tool call ends, from its JSON-RPC reply: an RPC error, an empty
/// result, an unexpected result shape, a tool error (`Error: ...`), an
/// unexpected tool message, or success (`Success`) with its structured payload.
pub open spec fn tool_result_of(reply: RpcReply) -> Result<Seq<char>, Seq<char>> {
    match reply.error {
        Some(e) => Err("RPC error: "@ + e@),
        None => match reply.result {
            None => Err(EMPTY_RESULT_ERROR@),
            Some(r) => match r.message {
                None => Err("Unexpected result shape: "@ + r.result_text@),
                Some(m) => match strip_prefix(m@, "Error: "@) {
                    Some(rest) => Err(rest),
                    None => if m@ == "Success"@ {
                        Ok(structured_text_of(r))
                    } else {
                        Err("Unexpected tool message: "@ + m@)
                    },
                },
            },
        },
    }
}

/// The warnings a tool call shows: those of a result that carried a message.
pub open spec fn tool_warnings_of(reply: RpcReply) -> Seq<Seq<char>> {
    match reply.error {
        Some(_) => Seq::empty(),
        None => match reply.result {
            Some(r) => match r.message {
                Some(_) => warnings_value(match r.warnings {
                    Some(w) => Some(w@),
                    None => None,
                }),
                None => Seq::empty(),
            },
            None => Seq::empty(),
        },
    }
}

/// `prefix` followed by `text`.
fn prefixed(prefix: &str, text: &str) -> (r: String)
    ensures
        r@ == prefix@ + text@,
{
    let mut out = chars_of(prefix);
    push_str(&mut out, text);
    string_of(&out)
}

/// Judge a tool call's JSON-RPC reply.
pub fn tool_outcome(reply: &RpcReply) -> (r: ToolOutcome)
    ensures
        string_texts(r.warnings@) == tool_warnings_of(*reply),
        match r.result {
            Ok(s) => tool_result_of(*reply) == Ok::<Seq<char>, Seq<char>>(s@),
            Err(e) => tool_result_of(*reply) == Err::<Seq<char>, Seq<char>>(e@),
        },
{
    let none: Vec<String> = Vec::new();
    assert(string_texts(none@) =~= Seq::<Seq<char>>::empty());
    match &reply.error {
        Some(e) => {
            return ToolOutcome { warnings: none, result: Err(prefixed("RPC error: ", e.as_str())) };
        },
        None => {},
    }
    let result = match &reply.result {
        Some(r) => r,
        None => {
            return ToolOutcome { warnings: none, result: Err(EMPTY_RESULT_ERROR.to_string()) };
        },
    };
    let message = match &result.message {
        Some(m) => m,
        None => {
            return ToolOutcome {
                warnings: none,
                result: Err(prefixed("Unexpected result shape: ", result.result_text.as_str())),
            };
        },
    };
    let warnings = warnings_from_structured(&result.warnings);
    let m = chars_of(message.as_str());
    proof {
        reveal_strlit("Error: ");
    }
    if starts_with_str(&m, "Error: ") {
        let rest = slice_of(&m, 7, m.len());
        return ToolOutcome { warnings, result: Err(string_of(&rest)) };
    }
    if crate::hotkeys::text_is(&m, "Success") {
        let structured = match &result.structured {
            Some(t) => t.clone(),
            None => string_of(&chars_of("{}")),
        };
        ToolOutcome { warnings, result: Ok(structured) }
    } else {
        ToolOutcome { warnings, result: Err(prefixed("Unexpected tool message: ", message.as_str())) }
    }
}

/// Whether an `upsert_note` payload says a new file was created: its
/// `newFileCreated` is `true` (a missing or non-boolean value counts as no).
pub fn new_file_created(value: &Option<JsonValue>) -> (r: bool)
    ensures
        r == (match value {
            Some(v) => v@ == ValueModel::Scalar(ScalarModel::Bool(true)),
            None => false,
        }),
{
    match value {
        Some(JsonValue::Scalar(JsonScalar::Bool(b))) => *b,
        _ => false,
    }
}

/// The error for a markdown-file tool that found no note at `path`.
pub fn file_not_found_error(path: &str) -> (r: String)
    ensures
        r@ == "File not found at '"@ + path@ + "'"@,
{
    let mut out = chars_of("File not found at '");
    push_str(&mut out, path);
    push_str(&mut out, "'");
    string_of(&out)
}

/// The result of `upsert_note`: whether it created a new file.
pub struct UpsertNoteResult {
    pub new_file_created: bool,
}

/// The JSON-RPC ids of tool calls: each call takes the next one, starting at 1.
pub struct RequestIds {
    next: u64,
    issued: Ghost<Seq<u64>>,
}

impl RequestIds {
    /// The id that the next call takes.
    pub closed spec fn next_id(&self) -> u64 {
        self.next
    }

    /// The ids taken so far, in the order they were taken.
    pub closed spec fn issued(&self) -> Seq<u64> {
        self.issued@
    }

    /// The ids taken so far grew with each call, and the next one is larger
    /// than all of them.
    pub open spec fn counting(&self) -> bool {
        &&& forall|i: int| 0 <= i < self.issued().len() ==> #[trigger] self.issued()[i] < self.next_id()
        &&& forall|i: int, j: int|
            0 <= i < j < self.issued().len() ==> #[trigger] self.issued()[i] < #[trigger] self.issued()[j]
    }

    /// No id taken yet; the first call takes 1.
    pub fn new() -> (r: Self)
        ensures
            r.next_id() == 1,
            r.issued() == Seq::<u64>::empty(),
            r.counting(),
    {
        RequestIds { next: 1, issued: Ghost(Seq::empty()) }
    }

    /// Take the id of the next call. The counter wraps after `u64::MAX`;
    /// until it does, each id is larger than every id taken before it.
    pub fn take(&mut self) -> (id: u64)
        ensures
            id == old(self).next_id(),
            final(self).next_id() == bumped(old(self).next_id()),
            final(self).issued() == old(self).issued().push(id),
            old(self).counting() ==> forall|i: int|
                0 <= i < old(self).issued().len() ==> #[trigger] old(self).issued()[i] < id,
            old(self).counting() && old(self).next_id() < u64::MAX ==> final(self).counting(),
    {
        let id = self.next;
        self.next = bump(self.next);
        self.issued = Ghost(self.issued@.push(id));
        id
    }
}

} // verus!
