//! Fixed values of the notes frontend: backend routes, the export palette,
//! and the templates that exports and prompts are filled into.

use vstd::prelude::*;
use crate::text::{chars_of, push_str, string_of};

verus! {

/// Path of the note a fresh editor opens with.
pub const DEFAULT_MARKDOWN_PATH: &'static str = "./example_folder/new_markdown.md";

/// Path of the note the New File action adds.
pub const NEW_FILE_PATH: &'static str = "./new_file.md";

/// Same-origin route of the MCP backend.
pub const MCP_URL: &'static str = "/mcp";

/// Same-origin route of the Ollama HTTP API.
pub const OLLAMA_URL: &'static str = "/ollama";
pub const OLLAMA_TAGS_PATH: &'static str = "/api/tags";
pub const OLLAMA_GENERATE_PATH: &'static str = "/api/generate";

/// Origin, models path and generate action of the Gemini API.
pub const GEMINI_API_ORIGIN: &'static str = "https://generativelanguage.googleapis.com";
pub const GEMINI_MODELS_PATH: &'static str = "/v1beta/models";
pub const GEMINI_GENERATE_CONTENT_ACTION: &'static str = "generateContent";

/// `{origin}{models path}/{model}?key={api_key}`: the metadata URL of a Gemini model.
pub open spec fn gemini_model_url_text(model: Seq<char>, api_key: Seq<char>) -> Seq<char> {
    GEMINI_API_ORIGIN@ + GEMINI_MODELS_PATH@ + "/"@ + model + "?key="@ + api_key
}

/// Return the Gemini model metadata URL for `model` and `api_key`.
pub fn gemini_model_url(model: &str, api_key: &str) -> (r: String)
    ensures
        r@ == gemini_model_url_text(model@, api_key@),
{
    let mut out = chars_of(GEMINI_API_ORIGIN);
    push_str(&mut out, GEMINI_MODELS_PATH);
    push_str(&mut out, "/");
    push_str(&mut out, model);
    push_str(&mut out, "?key=");
    push_str(&mut out, api_key);
    string_of(&out)
}

/// MIME type of a drag carrying a tree path.
pub const DRAG_MIME: &'static str = "text/plain";

/// Export palette. The PDF stylesheet declares the same tokens in `:root`.
pub const BG_0: &'static str = "#11111b";
pub const BG_1: &'static str = "#181825";
pub const BG_2: &'static str = "#1e1e2e";
pub const BG_3: &'static str = "#313244";
pub const BORDER: &'static str = "#45475a";
pub const TEXT: &'static str = "#cdd6f4";
pub const TEXT_MUTED: &'static str = "#6c7086";
pub const TEXT_SUBTLE: &'static str = "#a6adc8";
pub const ACCENT: &'static str = "#cba6f7";
pub const CODE: &'static str = "#f38ba8";

/// Checkmark drawn on a checked settings checkbox, served as a static file.
pub const CHECKBOX_CHECK_SVG_HREF: &'static str = "/checkbox-check.svg";

/// Theme of fenced code blocks.
pub const CODE_THEME: &'static str = "base16-ocean.dark";
/// Item marker of an unordered list rewritten for PDF export.
pub const LIST_BULLET: &'static str = "•";
/// Classes of the fallback block a failing diagram render emits.
pub const GRAPHVIZ_ERROR_CLASS: &'static str = "graphviz-error";
pub const MERMAID_ERROR_CLASS: &'static str = "mermaid-error";
/// Font families of exported diagrams.
pub const PDF_FONT_FAMILY: &'static str = "Courier, monospace";
pub const GRAPHVIZ_LABEL_FONT_FAMILY: &'static str = "Helvetica, Arial, sans-serif";

/// Standalone HTML export page; `{{TITLE}}` and `{{BODY}}` are filled in.
pub const EXPORT_TEMPLATE: &'static str = "<!DOCTYPE html>
<html lang=\"en\" data-theme=\"dark\">
<head>
<meta charset=\"utf-8\">
<title>{{TITLE}}</title>
<style>
:root { --bg-2: #1e1e2e; --text: #cdd6f4; --code: #f38ba8; }
body { background: var(--bg-2); color: var(--text); font-family: sans-serif; }
code { color: var(--code); }
</style>
</head>
<body>
{{BODY}}
</body>
</html>
";

/// HTML page converted to PDF; `{{TITLE}}` and `{{BODY}}` are filled in.
pub const EXPORT_PDF_TEMPLATE: &'static str = "<!DOCTYPE html>
<html lang=\"en\">
<head>
<meta charset=\"utf-8\">
<title>{{TITLE}}</title>
<style>
:root {
  --bg-0: #11111b;
  --bg-1: #181825;
  --bg-2: #1e1e2e;
  --bg-3: #313244;
  --border: #45475a;
  --text: #cdd6f4;
  --text-muted: #6c7086;
  --accent: #cba6f7;
  --code: #f38ba8;
}
body { background: var(--bg-2); color: var(--text); font-family: Helvetica, sans-serif; }
h1, h2, h3 { color: var(--accent); }
pre { background: var(--bg-1); border: 1px solid var(--border); }
code { color: var(--code); }
</style>
</head>
<body>
{{BODY}}
</body>
</html>
";

/// Prompt sent to a model; `{{USER_PROMPT}}`, `{{CONTEXT}}` and
/// `{{RESPONSE_TEMPLATE}}` are filled in.
pub const PROMPT_TEMPLATE: &'static str = "{{USER_PROMPT}}

## Context

{{CONTEXT}}

## Response template

Answer in markdown following this template:

{{RESPONSE_TEMPLATE}}
";

} // verus!
