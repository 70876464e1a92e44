//! The prompt text: the user's request, the open notes as context and the open
//! template as the requested response shape.

use vstd::prelude::*;
use crate::block::{entry_markdown_text, entry_to_markdown, EditorEntry};
use crate::constants::PROMPT_TEMPLATE;
use crate::file_tree_backend::FileTreeBackend;
use crate::info_messages::ENTER_PROMPT_TOAST;
use crate::text::{trim, trimmed_chars, chars_of, join, join_exec, push_all, push_str, replace_all, replace_all_exec, string_of, texts};

verus! {

/// The prompt template with `{{USER_PROMPT}}`, then `{{CONTEXT}}`, then
/// `{{RESPONSE_TEMPLATE}}` replaced, in that order.
pub open spec fn prompt_text(user: Seq<char>, context: Seq<char>, template: Seq<char>) -> Seq<char> {
    replace_all(
        replace_all(
            replace_all(PROMPT_TEMPLATE@, "{{USER_PROMPT}}"@, user),
            "{{CONTEXT}}"@,
            context,
        ),
        "{{RESPONSE_TEMPLATE}}"@,
        template,
    )
}

/// The context section of one open note: `## {path}`, a blank line, its markdown.
pub open spec fn note_section(path: Seq<char>, markdown: Seq<char>) -> Seq<char> {
    "## "@ + path + "\n\n"@ + markdown
}

/// The context sections of the open notes, in editor order.
pub open spec fn note_sections(s: Seq<EditorEntry>) -> Seq<Seq<char>>
    decreases s.len(),
{
    if s.len() == 0 {
        Seq::empty()
    } else {
        let rest = note_sections(s.drop_last());
        let e = s.last();
        match e.backend {
            FileTreeBackend::Notes => rest.push(note_section(e.title.path@, entry_markdown_text(e))),
            FileTreeBackend::Templates => rest,
        }
    }
}

/// The markdown of the last open template, or nothing when none is open.
pub open spec fn response_template_of(s: Seq<EditorEntry>) -> Seq<char>
    decreases s.len(),
{
    if s.len() == 0 {
        Seq::empty()
    } else {
        match s.last().backend {
            FileTreeBackend::Templates => entry_markdown_text(s.last()),
            FileTreeBackend::Notes => response_template_of(s.drop_last()),
        }
    }
}

/// The prompt built from `user` and the open editor entries `s`.
pub open spec fn built_prompt(user: Seq<char>, s: Seq<EditorEntry>) -> Seq<char> {
    prompt_text(user, join(note_sections(s), "\n\n"@), response_template_of(s))
}

/// Every `pattern` in `text` replaced by `with`, as characters.
fn replace_placeholder(text: &Vec<char>, pattern: &str, with: &str) -> (r: Vec<char>)
    requires
        pattern@.len() > 0,
    ensures
        r@ == replace_all(text@, pattern@, with@),
{
    let p = chars_of(pattern);
    let w = chars_of(with);
    replace_all_exec(text, &p, &w)
}

/// Fill the prompt template with the user prompt, open-note context, and response template.
pub fn create_prompt(user_prompt: &str, context: &str, response_template: &str) -> (r: String)
    ensures
        r@ == prompt_text(user_prompt@, context@, response_template@),
{
    proof {
        reveal_strlit("{{USER_PROMPT}}");
        reveal_strlit("{{CONTEXT}}");
        reveal_strlit("{{RESPONSE_TEMPLATE}}");
    }
    let template = chars_of(PROMPT_TEMPLATE);
    let a = replace_placeholder(&template, "{{USER_PROMPT}}", user_prompt);
    let b = replace_placeholder(&a, "{{CONTEXT}}", context);
    let c = replace_placeholder(&b, "{{RESPONSE_TEMPLATE}}", response_template);
    string_of(&c)
}

/// Fill the prompt template from the user text and open editor entries: each
/// open note becomes a `## {path}` section of the context, and the last open
/// template fills the response slot.
pub fn build_prompt(user_prompt: &str, entries: &Vec<EditorEntry>) -> (r: String)
    ensures
        r@ == built_prompt(user_prompt@, entries@),
{
    let mut parts: Vec<Vec<char>> = Vec::new();
    let mut response_template = String::new();
    let n = entries.len();
    let mut i: usize = 0;
    while i < n
        invariant
            n == entries@.len(),
            i <= n,
            texts(parts@) == note_sections(entries@.take(i as int)),
            response_template@ == response_template_of(entries@.take(i as int)),
        decreases n - i,
    {
        let entry = &entries[i];
        let markdown = entry_to_markdown(entry);
        assert(entries@.take(i + 1).drop_last() == entries@.take(i as int));
        assert(entries@.take(i + 1).last() == entries@[i as int]);
        match entry.backend {
            FileTreeBackend::Notes => {
                let mut section = chars_of("## ");
                push_str(&mut section, entry.title.path.as_str());
                push_str(&mut section, "\n\n");
                push_str(&mut section, markdown.as_str());
                let ghost before = texts(parts@);
                parts.push(section);
                assert(texts(parts@) =~= before.push(section@));
            },
            FileTreeBackend::Templates => {
                response_template = markdown;
            },
        }
        i = i + 1;
    }
    assert(entries@.take(n as int) == entries@);
    let sep = chars_of("\n\n");
    let context = join_exec(&parts, &sep);
    create_prompt(user_prompt, string_of(&context).as_str(), response_template.as_str())
}

/// Return the filled prompt, or the error toast when the user text is blank.
pub fn assembled_prompt(user_prompt: &str, entries: &Vec<EditorEntry>) -> (r: Result<String, String>)
    ensures
        trim(user_prompt@).len() == 0 ==> (r matches Err(t) && t@ == ENTER_PROMPT_TOAST@),
        trim(user_prompt@).len() > 0 ==> (r matches Ok(p) && p@ == built_prompt(user_prompt@, entries@)),
{
    if trimmed_chars(user_prompt).len() == 0 {
        Err(ENTER_PROMPT_TOAST.to_string())
    } else {
        Ok(build_prompt(user_prompt, entries))
    }
}

/// Each open note enters the context as its path and its whole markdown
/// file as it is saved: `## {path}`, a blank line, then its front matter
/// between `---` fences when it has any, then its body. Templates add no
/// section.
pub proof fn lemma_note_context_is_whole_file(s: Seq<EditorEntry>, i: int)
    requires
        0 <= i < s.len(),
        s[i].backend == FileTreeBackend::Notes,
    ensures
        exists|k: int|
            0 <= k < note_sections(s).len() && #[trigger] note_sections(s)[k] == "## "@ + s[i].title.path@
                + "\n\n"@ + entry_markdown_text(s[i]),
        match s[i].front_matter {
            Some(fm) => fm.raw@.len() > 0 ==> exists|k: int|
                0 <= k < note_sections(s).len() && #[trigger] note_sections(s)[k] == "## "@
                    + s[i].title.path@ + "\n\n---\n"@ + fm.raw@ + "\n---\n"@ + s[i].content.text@,
            None => exists|k: int|
                0 <= k < note_sections(s).len() && #[trigger] note_sections(s)[k] == "## "@
                    + s[i].title.path@ + "\n\n"@ + s[i].content.text@,
        },
    decreases s.len(),
{
    reveal_strlit("## ");
    reveal_strlit("\n\n");
    reveal_strlit("\n\n---\n");
    reveal_strlit("\n---\n");
    let rest = note_sections(s.drop_last());
    if i < s.len() - 1 {
        assert(s.drop_last()[i] == s[i]);
        lemma_note_context_is_whole_file(s.drop_last(), i);
        let k = choose|k: int|
            0 <= k < rest.len() && #[trigger] rest[k] == "## "@ + s[i].title.path@ + "\n\n"@
                + entry_markdown_text(s[i]);
        assert(note_sections(s)[k] == rest[k]);
    } else {
        assert(note_sections(s) == rest.push(note_section(s[i].title.path@, entry_markdown_text(s[i]))));
        assert(note_sections(s)[rest.len() as int] == note_section(s[i].title.path@, entry_markdown_text(s[i])));
    }
    let k = choose|k: int|
        0 <= k < note_sections(s).len() && #[trigger] note_sections(s)[k] == "## "@ + s[i].title.path@
            + "\n\n"@ + entry_markdown_text(s[i]);
    match s[i].front_matter {
        Some(fm) => {
            if fm.raw@.len() > 0 {
                assert("## "@ + s[i].title.path@ + "\n\n"@ + entry_markdown_text(s[i]) =~= "## "@
                    + s[i].title.path@ + "\n\n---\n"@ + fm.raw@ + "\n---\n"@ + s[i].content.text@);
            }
        },
        None => {},
    }
}

/// The number of open notes among the first `n` entries of `s`.
pub open spec fn notes_before(s: Seq<EditorEntry>, n: int) -> nat
    decreases n,
{
    if n <= 0 {
        0
    } else {
        notes_before(s, n - 1) + if s[n - 1].backend == FileTreeBackend::Notes {
            1nat
        } else {
            0nat
        }
    }
}

/// The context holds one section per open note, in editor order: as many
/// sections as notes, and the note at position `i` gives the section counted
/// by the notes before it, made of its path and its whole markdown file.
pub proof fn lemma_note_sections_in_order(s: Seq<EditorEntry>)
    ensures
        note_sections(s).len() == notes_before(s, s.len() as int),
        forall|i: int|
            0 <= i < s.len() && s[i].backend == FileTreeBackend::Notes ==> #[trigger] note_sections(
                s,
            )[notes_before(s, i) as int] == "## "@ + s[i].title.path@ + "\n\n"@ + entry_markdown_text(s[i]),
    decreases s.len(),
{
    reveal_strlit("## ");
    reveal_strlit("\n\n");
    if s.len() > 0 {
        let p = s.drop_last();
        lemma_note_sections_in_order(p);
        assert forall|k: int| 0 <= k <= p.len() implies notes_before(p, k) == notes_before(s, k) by {
            lemma_notes_before_prefix(s, k);
        }
        assert forall|i: int|
            0 <= i < s.len() && s[i].backend == FileTreeBackend::Notes implies #[trigger] note_sections(
                s,
            )[notes_before(s, i) as int] == "## "@ + s[i].title.path@ + "\n\n"@ + entry_markdown_text(s[i]) by {
            if i < p.len() {
                assert(p[i] == s[i]);
                assert(notes_before(p, i) == notes_before(s, i));
                assert(notes_before(p, i) < notes_before(p, p.len() as int)) by {
                    lemma_notes_before_grows(p, i);
                }
            }
        }
    }
}

/// Counting the notes of a longer sequence gives the same count over a
/// shared prefix.
proof fn lemma_notes_before_prefix(s: Seq<EditorEntry>, k: int)
    requires
        s.len() > 0,
        0 <= k <= s.len() - 1,
    ensures
        notes_before(s.drop_last(), k) == notes_before(s, k),
    decreases k,
{
    if k > 0 {
        lemma_notes_before_prefix(s, k - 1);
        assert(s.drop_last()[k - 1] == s[k - 1]);
    }
}

/// A note at position `i` is counted before position `n > i`.
proof fn lemma_notes_before_grows(s: Seq<EditorEntry>, i: int)
    requires
        0 <= i < s.len(),
        s[i].backend == FileTreeBackend::Notes,
    ensures
        notes_before(s, i) < notes_before(s, s.len() as int),
    decreases s.len() - i,
{
    if i + 1 < s.len() {
        lemma_notes_before_mono(s, i + 1, s.len() as int);
    }
}

/// Counts grow with the prefix.
proof fn lemma_notes_before_mono(s: Seq<EditorEntry>, a: int, b: int)
    requires
        0 <= a <= b <= s.len(),
    ensures
        notes_before(s, a) <= notes_before(s, b),
    decreases b - a,
{
    if a < b {
        lemma_notes_before_mono(s, a, b - 1);
    }
}

/// The response slot holds the whole markdown file of the last open
/// template, and nothing when no template is open.
pub proof fn lemma_response_is_last_template(s: Seq<EditorEntry>)
    ensures
        forall|i: int|
            0 <= i < s.len() && #[trigger] s[i].backend == FileTreeBackend::Templates && (forall|j: int|
                i < j < s.len() ==> s[j].backend == FileTreeBackend::Notes) ==> response_template_of(s)
                == entry_markdown_text(s[i]),
        (forall|j: int| 0 <= j < s.len() ==> s[j].backend == FileTreeBackend::Notes) ==> response_template_of(s)
            == Seq::<char>::empty(),
    decreases s.len(),
{
    if s.len() > 0 {
        let p = s.drop_last();
        lemma_response_is_last_template(p);
        assert forall|i: int|
            0 <= i < s.len() && #[trigger] s[i].backend == FileTreeBackend::Templates && (forall|j: int|
                i < j < s.len() ==> s[j].backend == FileTreeBackend::Notes) implies response_template_of(s)
                == entry_markdown_text(s[i]) by {
            if i < s.len() - 1 {
                assert(s.last().backend == FileTreeBackend::Notes);
                assert(p[i] == s[i]);
                assert forall|j: int| i < j < p.len() implies p[j].backend == FileTreeBackend::Notes by {
                    assert(p[j] == s[j]);
                }
            }
        }
        if forall|j: int| 0 <= j < s.len() ==> s[j].backend == FileTreeBackend::Notes {
            assert(s.last().backend == FileTreeBackend::Notes);
            assert forall|j: int| 0 <= j < p.len() implies p[j].backend == FileTreeBackend::Notes by {
                assert(p[j] == s[j]);
            }
        }
    }
}

} // verus!
