//! Exporting open entries: the HTML document of an entry, the body it holds,
//! escaping, the page background of exported diagrams, and how an export run
//! is planned (file names and progress labels) and reports its failures.
//! Rendering markdown and triggering the browser download are the caller's.

use vstd::prelude::*;
use crate::block::EditorEntry;
use crate::constants::{EXPORT_PDF_TEMPLATE, EXPORT_TEMPLATE};
use crate::info_messages::{export_progress_label, export_progress_text, EXPORT_METADATA_HEADING};
use crate::path::{
    basename_of, diagram_svg_filename, html_page_title, DiagramKind, markdown_filename_of, path_to_html_filename, path_to_markdown_filename,
    path_to_pdf_filename, strip_md_ext_of,
};
use crate::text::{
    chars_of, decimal, find, find_exec, occurs_at, first_of, first_of_exec, join, join_exec, push_all, push_str,
    replace_all, replace_all_exec, slice_of, string_of, texts,
};

verus! {

pub const HTML_MIME: &'static str = "text/html;charset=utf-8";
pub const MARKDOWN_MIME: &'static str = "text/markdown;charset=utf-8";
pub const PDF_MIME: &'static str = "application/pdf";
pub const SVG_MIME: &'static str = "image/svg+xml;charset=utf-8";

/// Convert one editor entry to a downloadable file. Return toast text on failure.
pub trait ExportOne: Fn(EditorEntry, &str) -> Option<String> {}

impl<F: Fn(EditorEntry, &str) -> Option<String>> ExportOne for F {}

// ---------------------------------------------------------------------------
// Specifications
// ---------------------------------------------------------------------------

/// The HTML text of one character: `&`, `<`, `>`, `"` and `'` as entities.
pub open spec fn escaped_char(c: char) -> Seq<char> {
    if c == '&' {
        "&amp;"@
    } else if c == '<' {
        "&lt;"@
    } else if c == '>' {
        "&gt;"@
    } else if c == '"' {
        "&quot;"@
    } else if c == '\'' {
        "&#39;"@
    } else {
        seq![c]
    }
}

/// `s` as HTML text.
pub open spec fn escaped(s: Seq<char>) -> Seq<char>
    decreases s.len(),
{
    if s.len() == 0 {
        Seq::empty()
    } else {
        escaped(s.drop_last()) + escaped_char(s.last())
    }
}

/// An export template with `{{TITLE}}` and then `{{BODY}}` filled in.
pub open spec fn document_text(template: Seq<char>, title: Seq<char>, body: Seq<char>) -> Seq<char> {
    replace_all(replace_all(template, "{{TITLE}}"@, escaped(title)), "{{BODY}}"@, body)
}

/// The HTML body of an entry: its non-empty front matter as an escaped
/// metadata section, then its rendered markdown.
pub open spec fn body_html_text(front_matter: Option<Seq<char>>, rendered: Seq<char>) -> Seq<char> {
    match front_matter {
        Some(raw) => if raw.len() > 0 {
            "<section class=\"frontmatter\"><h2>"@ + EXPORT_METADATA_HEADING@ + "</h2><pre>"@
                + escaped(raw) + "</pre></section>"@ + rendered
        } else {
            rendered
        },
        None => rendered,
    }
}

/// The page-filling rectangle of colour `fill`.
pub open spec fn background_rect(fill: Seq<char>) -> Seq<char> {
    "<rect width=\"100%\" height=\"100%\" fill=\""@ + fill + "\"/>"@
}

/// `svg` with a page-filling rectangle right after its opening `<svg ...>`
/// tag; unchanged without such a tag or when the tag closes itself.
pub open spec fn with_background_text(svg: Seq<char>, fill: Seq<char>) -> Seq<char> {
    match find(svg, "<svg"@) {
        None => svg,
        Some(start) => match first_of(svg.subrange(start, svg.len() as int), '>') {
            None => svg,
            Some(rel) => {
                let open_end = start + rel;
                if open_end >= 1 && svg[open_end - 1] == '/' {
                    svg
                } else {
                    svg.subrange(0, open_end + 1) + background_rect(fill) + svg.subrange(
                        open_end + 1,
                        svg.len() as int,
                    )
                }
            },
        },
    }
}

// ---------------------------------------------------------------------------
// Functions
// ---------------------------------------------------------------------------

/// Escape `&`, `<`, `>`, `"` and `'` for HTML text.
pub fn escape_html(text: &str) -> (r: String)
    ensures
        r@ == escaped(text@),
{
    let v = chars_of(text);
    let n = v.len();
    let mut out: Vec<char> = Vec::new();
    let mut i: usize = 0;
    while i < n
        invariant
            n == v@.len(),
            v@ == text@,
            i <= n,
            out@ == escaped(v@.take(i as int)),
        decreases n - i,
    {
        assert(v@.take(i + 1).drop_last() == v@.take(i as int));
        assert(v@.take(i + 1).last() == v@[i as int]);
        let c = v[i];
        if c == '&' {
            push_str(&mut out, "&amp;");
        } else if c == '<' {
            push_str(&mut out, "&lt;");
        } else if c == '>' {
            push_str(&mut out, "&gt;");
        } else if c == '"' {
            push_str(&mut out, "&quot;");
        } else if c == '\'' {
            push_str(&mut out, "&#39;");
        } else {
            out.push(c);
        }
        assert(out@ == escaped(v@.take(i + 1)));
        i = i + 1;
    }
    assert(v@.take(n as int) == v@);
    string_of(&out)
}

/// Every `pattern` in `text` replaced by `with`, as characters.
fn fill(text: &Vec<char>, pattern: &str, with: &str) -> (r: Vec<char>)
    requires
        pattern@.len() > 0,
    ensures
        r@ == replace_all(text@, pattern@, with@),
{
    replace_all_exec(text, &chars_of(pattern), &chars_of(with))
}

/// Fill an export HTML template with an escaped title and a body.
pub fn build_html_document(template: &str, title: &str, body_html: &str) -> (r: String)
    ensures
        r@ == document_text(template@, title@, body_html@),
{
    proof {
        reveal_strlit("{{TITLE}}");
        reveal_strlit("{{BODY}}");
    }
    let escaped_title = escape_html(title);
    let a = fill(&chars_of(template), "{{TITLE}}", escaped_title.as_str());
    let b = fill(&a, "{{BODY}}", body_html);
    string_of(&b)
}

/// Render front matter and markdown body: `rendered` is the entry's markdown
/// already rendered to HTML.
pub fn entry_body_html(entry: &EditorEntry, rendered: &str) -> (r: String)
    ensures
        r@ == body_html_text(crate::block::front_matter_raw(*entry), rendered@),
{
    match &entry.front_matter {
        Some(fm) => {
            if fm.raw.as_str().is_empty() {
                return string_of(&chars_of(rendered));
            }
            let mut out = chars_of("<section class=\"frontmatter\"><h2>");
            push_str(&mut out, EXPORT_METADATA_HEADING);
            push_str(&mut out, "</h2><pre>");
            let esc = escape_html(fm.raw.as_str());
            push_str(&mut out, esc.as_str());
            push_str(&mut out, "</pre></section>");
            push_str(&mut out, rendered);
            string_of(&out)
        },
        None => string_of(&chars_of(rendered)),
    }
}

/// The standalone HTML export of an entry whose markdown renders to `rendered`.
pub fn html_export_document(entry: &EditorEntry, rendered: &str) -> (r: String)
    ensures
        r@ == document_text(
            EXPORT_TEMPLATE@,
            strip_md_ext_of(basename_of(entry.title.path@)),
            body_html_text(crate::block::front_matter_raw(*entry), rendered@),
        ),
{
    let title = html_page_title(entry.title.path.as_str());
    let body = entry_body_html(entry, rendered);
    build_html_document(EXPORT_TEMPLATE, title.as_str(), body.as_str())
}

/// The HTML a PDF export of an entry is converted from, for an entry whose
/// markdown renders to `rendered`.
pub fn pdf_export_document(entry: &EditorEntry, rendered: &str) -> (r: String)
    ensures
        r@ == document_text(
            EXPORT_PDF_TEMPLATE@,
            strip_md_ext_of(basename_of(entry.title.path@)),
            body_html_text(crate::block::front_matter_raw(*entry), rendered@),
        ),
{
    let title = html_page_title(entry.title.path.as_str());
    let body = entry_body_html(entry, rendered);
    build_html_document(EXPORT_PDF_TEMPLATE, title.as_str(), body.as_str())
}

/// Return `svg` with a page-fill rect of colour `fill` so the editor
/// background is kept on export.
pub fn with_page_background(svg: &str, fill: &str) -> (r: String)
    ensures
        r@ == with_background_text(svg@, fill@),
{
    let v = chars_of(svg);
    let n = v.len();
    let start = match find_exec(&v, &chars_of("<svg")) {
        Some(s) => s,
        None => return string_of(&v),
    };
    proof {
        crate::text::lemma_find_from(v@, "<svg"@, 0);
    }
    let tail = slice_of(&v, start, n);
    let rel = match first_of_exec(&tail, '>') {
        Some(r) => r,
        None => return string_of(&v),
    };
    proof {
        crate::text::lemma_find_from(tail@, seq!['>'], 0);
    }
    let open_end = start + rel;
    if open_end >= 1 && v[open_end - 1] == '/' {
        return string_of(&v);
    }
    let mut out = slice_of(&v, 0, open_end + 1);
    push_str(&mut out, "<rect width=\"100%\" height=\"100%\" fill=\"");
    push_str(&mut out, fill);
    push_str(&mut out, "\"/>");
    let rest = slice_of(&v, open_end + 1, n);
    push_all(&mut out, &rest);
    string_of(&out)
}

/// Whether an export run starts: none is running and there is something to export.
pub fn export_should_start(in_progress: bool, count: usize) -> (r: bool)
    ensures
        r == (!in_progress && count > 0),
{
    !in_progress && count > 0
}

/// The strings of a vector, as text.
pub open spec fn string_texts(v: Seq<String>) -> Seq<Seq<char>> {
    Seq::new(v.len(), |i: int| v[i]@)
}

/// The error toast after an export run: its failures, one per line; none
/// when every file was exported.
pub fn export_errors_toast(errors: &Vec<String>) -> (r: Option<String>)
    ensures
        errors@.len() == 0 ==> r is None,
        errors@.len() > 0 ==> (r matches Some(t) && t@ == join(string_texts(errors@), seq!['\n'])),
{
    if errors.len() == 0 {
        return None;
    }
    let mut parts: Vec<Vec<char>> = Vec::new();
    let n = errors.len();
    let mut i: usize = 0;
    while i < n
        invariant
            n == errors@.len(),
            i <= n,
            texts(parts@) == string_texts(errors@).take(i as int),
        decreases n - i,
    {
        let ghost before = texts(parts@);
        parts.push(chars_of(errors[i].as_str()));
        assert(texts(parts@) =~= before.push(errors@[i as int]@));
        assert(string_texts(errors@).take(i + 1) =~= string_texts(errors@).take(i as int).push(errors@[i as int]@));
        i = i + 1;
    }
    assert(string_texts(errors@).take(n as int) =~= string_texts(errors@));
    let mut sep: Vec<char> = Vec::new();
    sep.push('\n');
    assert(sep@ =~= seq!['\n']);
    Some(string_of(&join_exec(&parts, &sep)))
}

/// The formats of an export run, each naming its files in its own way.
#[derive(Clone, Copy, Debug)]
pub enum ExportFormat {
    Html,
    Pdf,
    Markdown,
}

/// The file name under which an entry at `path` is exported in `format`.
pub open spec fn export_filename_of(format: ExportFormat, path: Seq<char>) -> Seq<char> {
    match format {
        ExportFormat::Html => strip_md_ext_of(basename_of(path)) + ".html"@,
        ExportFormat::Pdf => strip_md_ext_of(basename_of(path)) + ".pdf"@,
        ExportFormat::Markdown => markdown_filename_of(path),
    }
}

/// Return the file name under which an entry at `path` is exported in `format`.
pub fn export_filename(format: ExportFormat, path: &str) -> (r: String)
    ensures
        r@ == export_filename_of(format, path@),
{
    match format {
        ExportFormat::Html => path_to_html_filename(path),
        ExportFormat::Pdf => path_to_pdf_filename(path),
        ExportFormat::Markdown => path_to_markdown_filename(path),
    }
}

/// What an export run writes and shows, one item per entry in entry order:
/// the file name, and the progress label while that file is generated.
pub struct ExportPlan {
    pub names: Vec<String>,
    pub labels: Vec<String>,
}

/// Plan an export run of the entries at `paths`: none while another run is
/// in progress or when there is nothing to export.
pub fn export_run_plan(in_progress: bool, format: ExportFormat, paths: &Vec<String>) -> (r: Option<ExportPlan>)
    ensures
        r is None <==> (in_progress || paths@.len() == 0),
        r matches Some(plan) ==> {
            &&& plan.names@.len() == paths@.len()
            &&& plan.labels@.len() == paths@.len()
            &&& forall|i: int|
                0 <= i < paths@.len() ==> #[trigger] plan.names@[i]@ == export_filename_of(format, paths@[i]@)
                    && plan.labels@[i]@ == export_progress_text(plan.names@[i]@, i as nat, paths@.len())
        },
{
    if !export_should_start(in_progress, paths.len()) {
        return None;
    }
    let n = paths.len();
    let mut names: Vec<String> = Vec::new();
    let mut labels: Vec<String> = Vec::new();
    let mut i: usize = 0;
    while i < n
        invariant
            n == paths@.len(),
            i <= n,
            names@.len() == i,
            labels@.len() == i,
            forall|j: int|
                0 <= j < i ==> #[trigger] names@[j]@ == export_filename_of(format, paths@[j]@)
                    && labels@[j]@ == export_progress_text(names@[j]@, j as nat, n as nat),
        decreases n - i,
    {
        let name = export_filename(format, paths[i].as_str());
        let label = export_progress_label(name.as_str(), i, n);
        names.push(name);
        labels.push(label);
        i = i + 1;
    }
    Some(ExportPlan { names, labels })
}

/// The failures of an export run, in order: the toast text of each file
/// whose export failed.
pub open spec fn export_failures(outcomes: Seq<Option<String>>) -> Seq<Seq<char>>
    decreases outcomes.len(),
{
    if outcomes.len() == 0 {
        Seq::empty()
    } else {
        let earlier = export_failures(outcomes.drop_last());
        match outcomes.last() {
            Some(e) => earlier.push(e@),
            None => earlier,
        }
    }
}

/// The error toast after an export run, from the outcome of each file in the
/// order they were exported (`Some` holds a failure's toast text): the
/// failures, one per line; none when every file was exported.
pub fn export_run_report(outcomes: &Vec<Option<String>>) -> (r: Option<String>)
    ensures
        export_failures(outcomes@).len() == 0 ==> r is None,
        export_failures(outcomes@).len() > 0 ==> (r matches Some(t) && t@ == join(
            export_failures(outcomes@),
            seq!['\n'],
        )),
{
    let mut errors: Vec<String> = Vec::new();
    let n = outcomes.len();
    let mut i: usize = 0;
    assert(outcomes@.take(0) =~= Seq::<Option<String>>::empty());
    assert(string_texts(errors@) =~= Seq::<Seq<char>>::empty());
    while i < n
        invariant
            n == outcomes@.len(),
            i <= n,
            string_texts(errors@) == export_failures(outcomes@.take(i as int)),
        decreases n - i,
    {
        let ghost before = string_texts(errors@);
        assert(outcomes@.take(i + 1).drop_last() =~= outcomes@.take(i as int));
        match &outcomes[i] {
            Some(e) => {
                errors.push(e.clone());
                assert(string_texts(errors@) =~= before.push(outcomes@[i as int]->0@));
            },
            None => {},
        }
        i = i + 1;
    }
    assert(outcomes@.take(n as int) =~= outcomes@);
    export_errors_toast(&errors)
}

/// A diagram fence of an entry, in document order: its kind and its source.
pub struct DiagramFence {
    pub kind: DiagramKind,
    pub source: String,
}

/// A diagram to export: its download name, its kind, and its source.
pub struct DiagramJob {
    pub filename: String,
    pub kind: DiagramKind,
    pub source: String,
}

/// The fence language naming a diagram kind.
pub open spec fn diagram_kind_text(kind: DiagramKind) -> Seq<char> {
    match kind {
        DiagramKind::Mermaid => "mermaid"@,
        DiagramKind::Graphviz => "graphviz"@,
    }
}

/// The download name of diagram `index` of `kind` in the note at `path`.
pub open spec fn diagram_filename_of(path: Seq<char>, kind: DiagramKind, index: nat) -> Seq<char> {
    strip_md_ext_of(basename_of(path)) + seq!['_'] + diagram_kind_text(kind) + seq!['_'] + decimal(index)
        + ".svg"@
}

/// A job as its download name, kind and source.
pub open spec fn job_view(j: DiagramJob) -> (Seq<char>, DiagramKind, Seq<char>) {
    (j.filename@, j.kind, j.source@)
}

/// The jobs of one entry at `path`: each of its fences, numbered from 0 in
/// document order.
pub open spec fn entry_jobs(path: Seq<char>, fences: Seq<DiagramFence>) -> Seq<(Seq<char>, DiagramKind, Seq<char>)> {
    Seq::new(
        fences.len(),
        |j: int| (diagram_filename_of(path, fences[j].kind, j as nat), fences[j].kind, fences[j].source@),
    )
}

/// The jobs of a diagram export: those of each entry, in entry order;
/// `fences[i]` holds the fences of entry `i`.
pub open spec fn diagram_jobs_of(entries: Seq<EditorEntry>, fences: Seq<Vec<DiagramFence>>) -> Seq<(Seq<char>, DiagramKind, Seq<char>)>
    decreases fences.len(),
{
    if fences.len() == 0 {
        Seq::empty()
    } else {
        diagram_jobs_of(entries.drop_last(), fences.drop_last()) + entry_jobs(
            entries.last().title.path@,
            fences.last()@,
        )
    }
}

/// Return the download name, kind and source of every diagram fence of the
/// entries, in entry order and, within an entry, in document order;
/// `fences[i]` holds the fences found in the markdown of `entries[i]`.
pub fn diagram_export_jobs(entries: &Vec<EditorEntry>, fences: &Vec<Vec<DiagramFence>>) -> (r: Vec<DiagramJob>)
    requires
        fences@.len() == entries@.len(),
    ensures
        r@.map_values(|j: DiagramJob| job_view(j)) == diagram_jobs_of(entries@, fences@),
{
    let mut jobs: Vec<DiagramJob> = Vec::new();
    let n = entries.len();
    let mut i: usize = 0;
    assert(fences@.take(0) =~= Seq::<Vec<DiagramFence>>::empty());
    assert(jobs@.map_values(|j: DiagramJob| job_view(j)) =~= Seq::<(Seq<char>, DiagramKind, Seq<char>)>::empty());
    while i < n
        invariant
            n == entries@.len(),
            n == fences@.len(),
            i <= n,
            jobs@.map_values(|j: DiagramJob| job_view(j)) == diagram_jobs_of(
                entries@.take(i as int),
                fences@.take(i as int),
            ),
        decreases n - i,
    {
        let ghost before = jobs@.map_values(|j: DiagramJob| job_view(j));
        let path = entries[i].title.path.as_str();
        let fs = &fences[i];
        let m = fs.len();
        let mut k: usize = 0;
        while k < m
            invariant
                m == fs@.len(),
                k <= m,
                path@ == entries@[i as int].title.path@,
                jobs@.map_values(|j: DiagramJob| job_view(j)) == before + entry_jobs(path@, fs@).take(k as int),
            decreases m - k,
        {
            let ghost mid = jobs@.map_values(|j: DiagramJob| job_view(j));
            let fence = &fs[k];
            let filename = diagram_svg_filename(path, fence.kind.as_str(), k);
            jobs.push(DiagramJob { filename, kind: fence.kind, source: fence.source.clone() });
            assert(jobs@.map_values(|j: DiagramJob| job_view(j)) =~= mid.push(entry_jobs(path@, fs@)[k as int]));
            assert(entry_jobs(path@, fs@).take(k + 1) =~= entry_jobs(path@, fs@).take(k as int).push(
                entry_jobs(path@, fs@)[k as int],
            ));
            k = k + 1;
        }
        assert(entry_jobs(path@, fs@).take(m as int) =~= entry_jobs(path@, fs@));
        assert(entries@.take(i + 1).drop_last() =~= entries@.take(i as int));
        assert(fences@.take(i + 1).drop_last() =~= fences@.take(i as int));
        assert(entries@.take(i + 1).last() == entries@[i as int]);
        assert(fences@.take(i + 1).last() == fences@[i as int]);
        i = i + 1;
    }
    assert(entries@.take(n as int) =~= entries@);
    assert(fences@.take(n as int) =~= fences@);
    jobs
}

// ---------------------------------------------------------------------------
// Laws
// ---------------------------------------------------------------------------

/// Escaped text holds no `<`, `>`, `"` or `'`: it cannot open or close a tag
/// or end an attribute value.
pub proof fn lemma_escaped_has_no_markup(s: Seq<char>)
    ensures
        forall|i: int|
            0 <= i < escaped(s).len() ==> #[trigger] escaped(s)[i] != '<' && escaped(s)[i] != '>'
                && escaped(s)[i] != '"' && escaped(s)[i] != '\'',
    decreases s.len(),
{
    if s.len() > 0 {
        lemma_escaped_has_no_markup(s.drop_last());
        let a = escaped(s.drop_last());
        let b = escaped_char(s.last());
        reveal_strlit("&amp;");
        reveal_strlit("&lt;");
        reveal_strlit("&gt;");
        reveal_strlit("&quot;");
        reveal_strlit("&#39;");
        assert forall|i: int| 0 <= i < b.len() implies #[trigger] b[i] != '<' && b[i] != '>' && b[i] != '"' && b[i] != '\'' by {
        }
        assert forall|i: int| 0 <= i < escaped(s).len() implies #[trigger] escaped(s)[i] != '<' && escaped(s)[i] != '>' && escaped(s)[i] != '"' && escaped(s)[i] != '\'' by {
            if i < a.len() {
                assert(escaped(s)[i] == a[i]);
            } else {
                assert(escaped(s)[i] == b[i - a.len()]);
            }
        }
    }
}

/// The page background goes right after the opening `<svg ...>` tag: with
/// `s` the first place `<svg` occurs and `k` the first `>` at or after it,
/// the rectangle is inserted just after position `k`, unless the tag closes
/// itself (`/>`), in which case the text is unchanged.
pub proof fn lemma_background_after_svg_tag(svg: Seq<char>, fill: Seq<char>, s: int, k: int)
    requires
        occurs_at(svg, "<svg"@, s),
        forall|t: int| 0 <= t < s ==> !occurs_at(svg, "<svg"@, t),
        s <= k < svg.len(),
        svg[k] == '>',
        forall|j: int| s <= j < k ==> svg[j] != '>',
    ensures
        s < k,
        with_background_text(svg, fill) == if svg[k - 1] == '/' {
            svg
        } else {
            svg.subrange(0, k + 1) + background_rect(fill) + svg.subrange(k + 1, svg.len() as int)
        },
{
    reveal_strlit("<svg");
    assert(svg.subrange(s, s + 4)[0] == svg[s]);
    assert(svg[s] == '<');
    crate::text::lemma_find_from(svg, "<svg"@, 0);
    let tail = svg.subrange(s, svg.len() as int);
    crate::text::lemma_find_from(tail, seq!['>'], 0);
    assert(occurs_at(tail, seq!['>'], k - s)) by {
        assert(tail.subrange(k - s, k - s + 1) =~= seq!['>']);
    }
    assert forall|j: int| 0 <= j < k - s implies !occurs_at(tail, seq!['>'], j) by {
        if occurs_at(tail, seq!['>'], j) {
            assert(tail.subrange(j, j + 1)[0] == tail[j]);
            assert(tail[j] == svg[s + j]);
        }
    }
}

/// Without `<svg`, or without a `>` after the first `<svg`, the text is unchanged.
pub proof fn lemma_background_needs_svg_tag(svg: Seq<char>, fill: Seq<char>)
    ensures
        (forall|t: int| 0 <= t ==> !occurs_at(svg, "<svg"@, t)) ==> with_background_text(svg, fill) == svg,
        forall|s: int|
            #![trigger occurs_at(svg, "<svg"@, s)]
            occurs_at(svg, "<svg"@, s) && (forall|t: int| 0 <= t < s ==> !occurs_at(svg, "<svg"@, t)) && (
            forall|j: int| s <= j < svg.len() ==> svg[j] != '>') ==> with_background_text(svg, fill) == svg,
{
    crate::text::lemma_find_from(svg, "<svg"@, 0);
    assert forall|s: int|
        #![trigger occurs_at(svg, "<svg"@, s)]
        occurs_at(svg, "<svg"@, s) && (forall|t: int| 0 <= t < s ==> !occurs_at(svg, "<svg"@, t)) && (
        forall|j: int| s <= j < svg.len() ==> svg[j] != '>') implies with_background_text(svg, fill) == svg by {
        let tail = svg.subrange(s, svg.len() as int);
        crate::text::lemma_find_from(tail, seq!['>'], 0);
        if let Some(rel) = first_of(tail, '>') {
            assert(tail.subrange(rel, rel + 1)[0] == tail[rel]);
            assert(tail[rel] == svg[s + rel]);
        }
    }
}

} // verus!
