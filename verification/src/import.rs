//! Turning notes into editor entries: a markdown file is split into front
//! matter and body, and a backend note's metadata map is written back as YAML
//! front matter (scalars sorted by key, then one list per tab-keyed field).

use vstd::prelude::*;
use crate::block::{split_of, EditorEntry, FrontMatterBlock, split_front_matter};
use crate::file_tree_backend::{opened, FileTreeBackend};
use crate::sort::{
    contains_text, lemma_sorted_set_members, lemma_sorted_set_unique, sort_texts, sorted_set, strictly_sorted,
};
use crate::text::{
    chars_of, first_of, first_of_exec, has_char, join, join_exec, push_all, push_str, slice_of,
    string_of, texts,
};

verus! {

// ---------------------------------------------------------------------------
// JSON values as the metadata logic reads them
// ---------------------------------------------------------------------------

/// A JSON value that is not an array, as front matter shows it: objects (and
/// arrays nested inside arrays) are kept as their compact JSON text.
pub enum JsonScalar {
    Null,
    Bool(bool),
    Number(String),
    Str(String),
    Compound(String),
}

/// A JSON value: an array of scalars, or a scalar.
pub enum JsonValue {
    Scalar(JsonScalar),
    Array(Vec<JsonScalar>),
}

/// The mathematical content of a [`JsonScalar`].
pub enum ScalarModel {
    Null,
    Bool(bool),
    Number(Seq<char>),
    Str(Seq<char>),
    Compound(Seq<char>),
}

/// The mathematical content of a [`JsonValue`].
pub enum ValueModel {
    Scalar(ScalarModel),
    Array(Seq<ScalarModel>),
}

impl View for JsonScalar {
    type V = ScalarModel;

    open spec fn view(&self) -> ScalarModel {
        match self {
            JsonScalar::Null => ScalarModel::Null,
            JsonScalar::Bool(b) => ScalarModel::Bool(*b),
            JsonScalar::Number(t) => ScalarModel::Number(t@),
            JsonScalar::Str(t) => ScalarModel::Str(t@),
            JsonScalar::Compound(t) => ScalarModel::Compound(t@),
        }
    }
}

impl View for JsonValue {
    type V = ValueModel;

    open spec fn view(&self) -> ValueModel {
        match self {
            JsonValue::Scalar(s) => ValueModel::Scalar(s@),
            JsonValue::Array(items) => ValueModel::Array(
                Seq::new(items@.len(), |i: int| items@[i]@),
            ),
        }
    }
}

/// What `serde_json` parses a JSON text into, as the library models it.
pub uninterp spec fn json_parsed(text: Seq<char>) -> Option<ValueModel>;

/// `serde_json::from_str::<serde_json::Value>`, read as a [`JsonValue`].
/// Claimed: the result is `json_parsed` of the text (`None` when serde_json
/// rejects it), and a text that parses to a JSON string is longer than that
/// string (the string's quotes are part of the text). Numbers are kept as
/// serde_json displays them, objects and nested arrays as their compact JSON.
#[verifier::external_body]
fn parse_json_text(text: &str) -> (r: Option<JsonValue>)
    ensures
        match r {
            Some(v) => json_parsed(text@) == Some(v@),
            None => json_parsed(text@) is None,
        },
        r matches Some(JsonValue::Scalar(JsonScalar::Str(s))) ==> s@.len() < text@.len(),
{
    let scalar = |v: &serde_json::Value| match v {
        serde_json::Value::Null => JsonScalar::Null,
        serde_json::Value::Bool(b) => JsonScalar::Bool(*b),
        serde_json::Value::Number(n) => JsonScalar::Number(n.to_string()),
        serde_json::Value::String(s) => JsonScalar::Str(s.clone()),
        other => JsonScalar::Compound(other.to_string()),
    };
    match serde_json::from_str::<serde_json::Value>(text) {
        Ok(serde_json::Value::Array(items)) => Some(JsonValue::Array(items.iter().map(scalar).collect())),
        Ok(v) => Some(JsonValue::Scalar(scalar(&v))),
        Err(_) => None,
    }
}

/// Parse a JSON text into the library's model of JSON values.
pub fn json_value_from_text(text: &str) -> (r: Option<JsonValue>)
    ensures
        match r {
            Some(v) => json_parsed(text@) == Some(v@),
            None => json_parsed(text@) is None,
        },
{
    parse_json_text(text)
}

// ---------------------------------------------------------------------------
// Specifications
// ---------------------------------------------------------------------------

/// A scalar as a YAML scalar: strings bare, numbers and booleans as text,
/// null empty, compound values as compact JSON.
pub open spec fn yaml_scalar_text(v: ScalarModel) -> Seq<char> {
    match v {
        ScalarModel::Null => Seq::empty(),
        ScalarModel::Bool(b) => if b {
            "true"@
        } else {
            "false"@
        },
        ScalarModel::Number(t) => t,
        ScalarModel::Str(t) => t,
        ScalarModel::Compound(t) => t,
    }
}

/// The scalars of an array as YAML scalars.
pub open spec fn yaml_items(items: Seq<ScalarModel>) -> Seq<Seq<char>> {
    Seq::new(items.len(), |i: int| yaml_scalar_text(items[i]))
}

/// Size measure of a value for the re-parsing of JSON strings.
pub open spec fn string_size(v: ValueModel) -> nat {
    match v {
        ValueModel::Scalar(ScalarModel::Str(s)) => s.len() + 1,
        _ => 0,
    }
}

/// One front-matter line `key: value`: a string holding JSON is shown as that
/// JSON's value, an array as `[a, b]`, a scalar as a YAML scalar.
pub open spec fn front_matter_line_text(key: Seq<char>, val: ValueModel) -> Seq<char>
    decreases string_size(val),
{
    match val {
        ValueModel::Scalar(ScalarModel::Str(s)) => match json_parsed(s) {
            Some(p) => if string_size(p) < string_size(val) {
                front_matter_line_text(key, p)
            } else {
                key + ": "@ + s
            },
            None => key + ": "@ + s,
        },
        ValueModel::Array(items) => key + ": ["@ + join(yaml_items(items), ", "@) + "]"@,
        ValueModel::Scalar(x) => key + ": "@ + yaml_scalar_text(x),
    }
}

/// Keys the backend uses for itself: `filename`, `text`, and keys starting with a newline.
pub open spec fn is_internal_key(k: Seq<char>) -> bool {
    k == "filename"@ || k == "text"@ || (k.len() > 0 && k[0] == '\n')
}

/// The metadata map as key/value models.
pub open spec fn meta_model(meta: Seq<(String, JsonValue)>) -> Seq<(Seq<char>, ValueModel)> {
    Seq::new(meta.len(), |i: int| (meta[i].0@, meta[i].1@))
}

/// No key occurs twice.
pub open spec fn distinct_keys(m: Seq<(Seq<char>, ValueModel)>) -> bool {
    forall|i: int, j: int| 0 <= i < j < m.len() ==> m[i].0 != m[j].0
}

/// Entry `i` is a plain front-matter field: not internal, no tab in its key.
pub open spec fn is_scalar_entry(m: Seq<(Seq<char>, ValueModel)>, i: int) -> bool {
    !is_internal_key(m[i].0) && !has_char(m[i].0, '\t')
}

/// Entry `i` marks a list item: a `field\titem` key set to `true`.
pub open spec fn is_flag_entry(m: Seq<(Seq<char>, ValueModel)>, i: int) -> bool {
    !is_internal_key(m[i].0) && has_char(m[i].0, '\t') && m[i].1 == ValueModel::Scalar(
        ScalarModel::Bool(true),
    )
}

/// The part of a key before its first tab.
pub open spec fn key_field(k: Seq<char>) -> Seq<char> {
    match first_of(k, '\t') {
        Some(t) => k.subrange(0, t),
        None => k,
    }
}

/// The part of a key after its first tab.
pub open spec fn key_item(k: Seq<char>) -> Seq<char> {
    match first_of(k, '\t') {
        Some(t) => k.subrange(t + 1, k.len() as int),
        None => Seq::empty(),
    }
}

/// Keys of the plain front-matter fields.
pub open spec fn scalar_keys(m: Seq<(Seq<char>, ValueModel)>) -> Set<Seq<char>> {
    Set::new(|k: Seq<char>| exists|i: int| 0 <= i < m.len() && m[i].0 == k && is_scalar_entry(m, i))
}

/// Fields that have at least one list item.
pub open spec fn flag_fields(m: Seq<(Seq<char>, ValueModel)>) -> Set<Seq<char>> {
    Set::new(|f: Seq<char>| exists|i: int| 0 <= i < m.len() && is_flag_entry(m, i) && key_field(m[i].0) == f)
}

/// The list items of field `f`.
pub open spec fn flag_items(m: Seq<(Seq<char>, ValueModel)>, f: Seq<char>) -> Set<Seq<char>> {
    Set::new(|t: Seq<char>| exists|i: int| 0 <= i < m.len() && is_flag_entry(m, i) && key_field(m[i].0) == f && key_item(m[i].0) == t)
}

/// The value stored under key `k`.
pub open spec fn value_at(m: Seq<(Seq<char>, ValueModel)>, k: Seq<char>) -> ValueModel {
    m[choose|i: int| 0 <= i < m.len() && m[i].0 == k].1
}

/// The list line of field `f`: `f: [a, b]` with its items in order.
pub open spec fn list_line_text(m: Seq<(Seq<char>, ValueModel)>, f: Seq<char>) -> Seq<char> {
    f + ": ["@ + join(sorted_set(flag_items(m, f)), ", "@) + "]"@
}

/// The YAML front matter of a metadata map: plain fields sorted by key, then
/// list fields sorted by name with sorted items; none when there is neither.
pub open spec fn front_matter_text(m: Seq<(Seq<char>, ValueModel)>) -> Option<Seq<char>> {
    if !(exists|i: int| 0 <= i < m.len() && is_scalar_entry(m, i)) && !(exists|i: int|
        0 <= i < m.len() && is_flag_entry(m, i)) {
        None
    } else {
        let keys = sorted_set(scalar_keys(m));
        let fields = sorted_set(flag_fields(m));
        let lines = Seq::new(keys.len(), |j: int| front_matter_line_text(keys[j], value_at(m, keys[j])))
            + Seq::new(fields.len(), |j: int| list_line_text(m, fields[j]));
        Some(join(lines, seq!['\n']))
    }
}

// ---------------------------------------------------------------------------
// Functions
// ---------------------------------------------------------------------------

/// Return whether a metadata key is an internal backend field.
pub fn is_internal_metadata_key(key: &str) -> (r: bool)
    ensures
        r == is_internal_key(key@),
{
    let k = chars_of(key);
    let filename = chars_of("filename");
    let text = chars_of("text");
    crate::path::chars_eq(&k, &filename) || crate::path::chars_eq(&k, &text) || (k.len() > 0
        && k[0] == '\n')
}

/// Characters of a YAML scalar.
fn yaml_scalar_chars(val: &JsonScalar) -> (r: Vec<char>)
    ensures
        r@ == yaml_scalar_text(val@),
{
    match val {
        JsonScalar::Null => Vec::new(),
        JsonScalar::Bool(b) => if *b {
            chars_of("true")
        } else {
            chars_of("false")
        },
        JsonScalar::Number(t) => chars_of(t.as_str()),
        JsonScalar::Str(t) => chars_of(t.as_str()),
        JsonScalar::Compound(t) => chars_of(t.as_str()),
    }
}

/// Format a JSON value as a YAML scalar.
pub fn format_yaml_scalar(val: &JsonScalar) -> (r: String)
    ensures
        r@ == yaml_scalar_text(val@),
{
    string_of(&yaml_scalar_chars(val))
}

/// Characters of `key: [a, b]` for an array.
fn array_line_chars(key: &Vec<char>, items: &Vec<JsonScalar>) -> (r: Vec<char>)
    ensures
        r@ == key@ + ": ["@ + join(yaml_items(Seq::new(items@.len(), |i: int| items@[i]@)), ", "@)
            + "]"@,
{
    let ghost model = Seq::new(items@.len(), |i: int| items@[i]@);
    let mut parts: Vec<Vec<char>> = Vec::new();
    let mut i: usize = 0;
    while i < items.len()
        invariant
            i <= items@.len(),
            model == Seq::new(items@.len(), |i: int| items@[i]@),
            texts(parts@) == yaml_items(model).subrange(0, i as int),
        decreases items@.len() - i,
    {
        let ghost before = texts(parts@);
        parts.push(yaml_scalar_chars(&items[i]));
        assert(texts(parts@) =~= yaml_items(model).subrange(0, i + 1)) by {
            assert(texts(parts@) =~= before.push(yaml_scalar_text(items@[i as int]@)));
        }
        i = i + 1;
    }
    assert(yaml_items(model).subrange(0, items@.len() as int) =~= yaml_items(model));
    let mut out = slice_of(key, 0, key.len());
    assert(out@ =~= key@);
    push_str(&mut out, ": [");
    push_all(&mut out, &join_exec(&parts, &chars_of(", ")));
    push_str(&mut out, "]");
    out
}

/// Characters of one front-matter line.
fn line_chars(key: &Vec<char>, val: &JsonValue) -> (r: Vec<char>)
    ensures
        r@ == front_matter_line_text(key@, val@),
    decreases string_size(val@),
{
    match val {
        JsonValue::Scalar(JsonScalar::Str(s)) => {
            match parse_json_text(s.as_str()) {
                Some(parsed) => {
                    assert(string_size(parsed@) < string_size(val@));
                    line_chars(key, &parsed)
                },
                None => {
                    let mut out = slice_of(key, 0, key.len());
                    assert(out@ =~= key@);
                    push_str(&mut out, ": ");
                    push_str(&mut out, s.as_str());
                    out
                },
            }
        },
        JsonValue::Array(items) => array_line_chars(key, items),
        JsonValue::Scalar(x) => {
            let mut out = slice_of(key, 0, key.len());
            assert(out@ =~= key@);
            push_str(&mut out, ": ");
            push_all(&mut out, &yaml_scalar_chars(x));
            out
        },
    }
}

/// Format one YAML front-matter `key: value` line.
pub fn format_front_matter_line(key: &str, val: &JsonValue) -> (r: String)
    ensures
        r@ == front_matter_line_text(key@, val@),
{
    string_of(&line_chars(&chars_of(key), val))
}

/// A key with a tab is its field, the tab, and its item.
pub proof fn lemma_key_parts(k: Seq<char>)
    requires
        has_char(k, '\t'),
    ensures
        k == key_field(k) + seq!['\t'] + key_item(k),
{
    crate::text::lemma_find_from(k, seq!['\t'], 0);
    let j = choose|j: int| 0 <= j < k.len() && k[j] == '\t';
    assert(crate::text::occurs_at(k, seq!['\t'], j)) by {
        assert(k.subrange(j, j + 1) =~= seq!['\t']);
    }
    let t = first_of(k, '\t')->0;
    assert(k.subrange(t, t + 1) == seq!['\t']);
    assert(k[t] == k.subrange(t, t + 1)[0]);
    assert(k =~= k.subrange(0, t) + seq!['\t'] + k.subrange(t + 1, k.len() as int));
}

/// Some entry before `i` is a plain field with key `x`.
pub open spec fn scalar_key_before(m: Seq<(Seq<char>, ValueModel)>, i: int, x: Seq<char>) -> bool {
    exists|b: int| 0 <= b < i && m[b].0 == x && is_scalar_entry(m, b)
}

/// Some entry before `i` is a list item of field `x`.
pub open spec fn flag_field_before(m: Seq<(Seq<char>, ValueModel)>, i: int, x: Seq<char>) -> bool {
    exists|b: int| 0 <= b < i && is_flag_entry(m, b) && key_field(m[b].0) == x
}

/// One more entry considered.
proof fn lemma_before_step(m: Seq<(Seq<char>, ValueModel)>, i: int, x: Seq<char>)
    requires
        0 <= i < m.len(),
    ensures
        scalar_key_before(m, i + 1, x) <==> (scalar_key_before(m, i, x) || (m[i].0 == x
            && is_scalar_entry(m, i))),
        flag_field_before(m, i + 1, x) <==> (flag_field_before(m, i, x) || (is_flag_entry(m, i)
            && key_field(m[i].0) == x)),
{
    if scalar_key_before(m, i + 1, x) {
        let b = choose|b: int| 0 <= b < i + 1 && m[b].0 == x && is_scalar_entry(m, b);
        if b < i {
            assert(scalar_key_before(m, i, x));
        }
    }
    if scalar_key_before(m, i, x) {
        let b = choose|b: int| 0 <= b < i && m[b].0 == x && is_scalar_entry(m, b);
        assert(0 <= b < i + 1);
    }
    if m[i].0 == x && is_scalar_entry(m, i) {
        assert(0 <= i < i + 1);
    }
    if flag_field_before(m, i + 1, x) {
        let b = choose|b: int| 0 <= b < i + 1 && is_flag_entry(m, b) && key_field(m[b].0) == x;
        if b < i {
            assert(flag_field_before(m, i, x));
        }
    }
    if flag_field_before(m, i, x) {
        let b = choose|b: int| 0 <= b < i && is_flag_entry(m, b) && key_field(m[b].0) == x;
        assert(0 <= b < i + 1);
    }
}

/// The plain-field keys, the list fields, and the positions of the list items
/// of a metadata map.
fn classify(meta: &Vec<(String, JsonValue)>) -> (r: (Vec<Vec<char>>, Vec<Vec<char>>, Vec<usize>))
    requires
        distinct_keys(meta_model(meta@)),
    ensures
        forall|x: Seq<char>| #[trigger] texts(r.0@).contains(x) <==> scalar_key_before(meta_model(meta@), meta@.len() as int, x),
        texts(r.0@).no_duplicates(),
        forall|x: Seq<char>| #[trigger] texts(r.1@).contains(x) <==> flag_field_before(meta_model(meta@), meta@.len() as int, x),
        texts(r.1@).no_duplicates(),
        forall|a: int| 0 <= a < r.2@.len() ==> #[trigger] r.2@[a] < meta@.len() && is_flag_entry(meta_model(meta@), r.2@[a] as int),
        forall|a: int, c: int| 0 <= a < c < r.2@.len() ==> r.2@[a] < r.2@[c],
        forall|b: int| 0 <= b < meta@.len() && is_flag_entry(meta_model(meta@), b) ==> r.2@.contains(b as usize),
{
    let ghost m = meta_model(meta@);
    let n = meta.len();
    let mut keys: Vec<Vec<char>> = Vec::new();
    let mut fields: Vec<Vec<char>> = Vec::new();
    let mut flags: Vec<usize> = Vec::new();
    let mut i: usize = 0;
    while i < n
        invariant
            n == meta@.len(),
            i <= n,
            m == meta_model(meta@),
            distinct_keys(m),
            forall|x: Seq<char>| #[trigger] texts(keys@).contains(x) <==> scalar_key_before(m, i as int, x),
            texts(keys@).no_duplicates(),
            forall|x: Seq<char>| #[trigger] texts(fields@).contains(x) <==> flag_field_before(m, i as int, x),
            texts(fields@).no_duplicates(),
            forall|a: int| 0 <= a < flags@.len() ==> #[trigger] flags@[a] < i && is_flag_entry(m, flags@[a] as int),
            forall|a: int, c: int| 0 <= a < c < flags@.len() ==> flags@[a] < flags@[c],
            forall|b: int| 0 <= b < i && is_flag_entry(m, b) ==> flags@.contains(b as usize),
        decreases n - i,
    {
        let k = key_chars(meta, i);
        let ghost ki = m[i as int].0;
        let ghost keys0 = texts(keys@);
        let ghost fields0 = texts(fields@);
        let ghost flags0 = flags@;
        if is_internal_metadata_key(meta[i].0.as_str()) {
        } else if crate::text::has_char_exec(&k, '\t') {
            if is_true_value(&meta[i].1) {
                let (f, _item) = key_parts(&k);
                if !contains_text(&fields, &f) {
                    fields.push(f);
                    assert(texts(fields@) =~= fields0.push(key_field(ki)));
                }
                flags.push(i);
                assert(flags@ == flags0.push(i));
            }
        } else {
            assert(!keys0.contains(ki)) by {
                if keys0.contains(ki) {
                    let b = choose|b: int| 0 <= b < i && m[b].0 == ki && is_scalar_entry(m, b);
                }
            }
            keys.push(k);
            assert(texts(keys@) =~= keys0.push(ki));
        }
        assert forall|x: Seq<char>| #[trigger] texts(keys@).contains(x) <==> scalar_key_before(m, i + 1, x) by {
            lemma_before_step(m, i as int, x);
            if texts(keys@) != keys0 {
                crate::text::lemma_push_contains(keys0, ki, x);
            }
        }
        assert forall|x: Seq<char>| #[trigger] texts(fields@).contains(x) <==> flag_field_before(m, i + 1, x) by {
            lemma_before_step(m, i as int, x);
            if texts(fields@) != fields0 {
                crate::text::lemma_push_contains(fields0, key_field(ki), x);
            }
        }
        assert forall|b: int| 0 <= b < i + 1 && is_flag_entry(m, b) implies flags@.contains(b as usize) by {
            if b < i {
                assert(flags0.contains(b as usize));
                let a = choose|a: int| 0 <= a < flags0.len() && flags0[a] == b as usize;
                assert(flags@[a] == b as usize);
            } else {
                assert(flags@[flags@.len() - 1] == i);
            }
        }
        i = i + 1;
    }
    (keys, fields, flags)
}

/// The key of entry `b`, as characters.
fn key_chars(meta: &Vec<(String, JsonValue)>, b: usize) -> (r: Vec<char>)
    requires
        b < meta@.len(),
    ensures
        r@ == meta_model(meta@)[b as int].0,
{
    chars_of(meta[b].0.as_str())
}

/// Field and item of a key holding a tab.
fn key_parts(k: &Vec<char>) -> (r: (Vec<char>, Vec<char>))
    requires
        has_char(k@, '\t'),
    ensures
        r.0@ == key_field(k@),
        r.1@ == key_item(k@),
{
    let n = k.len();
    match first_of_exec(k, '\t') {
        Some(t) => (slice_of(k, 0, t), slice_of(k, t + 1, n)),
        None => {
            assert(false) by {
                crate::text::lemma_find_from(k@, seq!['\t'], 0);
                let j = choose|j: int| 0 <= j < k@.len() && k@[j] == '\t';
                assert(k@.subrange(j, j + 1) =~= seq!['\t']);
                assert(crate::text::occurs_at(k@, seq!['\t'], j));
            }
            (Vec::new(), Vec::new())
        },
    }
}

/// Whether entry `b` is set to `true`.
fn is_true_value(v: &JsonValue) -> (r: bool)
    ensures
        r == (v@ == ValueModel::Scalar(ScalarModel::Bool(true))),
{
    match v {
        JsonValue::Scalar(JsonScalar::Bool(b)) => *b,
        _ => false,
    }
}

/// Entry `flags[c]` for some `c < a` is a list item `x` of field `f`.
pub open spec fn item_before(m: Seq<(Seq<char>, ValueModel)>, flags: Seq<usize>, a: int, f: Seq<char>, x: Seq<char>) -> bool {
    exists|c: int| 0 <= c < a && key_field(m[flags[c] as int].0) == f && key_item(m[flags[c] as int].0) == x
}

/// The items of field `f` among the list-item entries `flags`.
fn field_items(meta: &Vec<(String, JsonValue)>, flags: &Vec<usize>, f: &Vec<char>) -> (r: Vec<Vec<char>>)
    requires
        distinct_keys(meta_model(meta@)),
        forall|a: int| 0 <= a < flags@.len() ==> #[trigger] flags@[a] < meta@.len() && is_flag_entry(meta_model(meta@), flags@[a] as int),
        forall|a: int, c: int| 0 <= a < c < flags@.len() ==> flags@[a] < flags@[c],
    ensures
        forall|x: Seq<char>| #[trigger] texts(r@).contains(x) <==> item_before(meta_model(meta@), flags@, flags@.len() as int, f@, x),
        texts(r@).no_duplicates(),
{
    let ghost m = meta_model(meta@);
    let n = meta.len();
    let mut items: Vec<Vec<char>> = Vec::new();
    let mut a: usize = 0;
    while a < flags.len()
        invariant
            n == meta@.len(),
            m == meta_model(meta@),
            distinct_keys(m),
            forall|a: int| 0 <= a < flags@.len() ==> #[trigger] flags@[a] < n && is_flag_entry(m, flags@[a] as int),
            forall|a: int, c: int| 0 <= a < c < flags@.len() ==> flags@[a] < flags@[c],
            a <= flags@.len(),
            forall|x: Seq<char>| #[trigger] texts(items@).contains(x) <==> item_before(m, flags@, a as int, f@, x),
            texts(items@).no_duplicates(),
        decreases flags@.len() - a,
    {
        let b = flags[a];
        let k = key_chars(meta, b);
        assert(is_flag_entry(m, b as int));
        let (kf, ki) = key_parts(&k);
        let ghost items0 = texts(items@);
        let matched = crate::path::chars_eq(&kf, f);
        if matched {
            assert(!items0.contains(ki@)) by {
                if items0.contains(ki@) {
                    let c = choose|c: int| 0 <= c < a && key_field(m[flags@[c] as int].0) == f@ && key_item(m[flags@[c] as int].0) == ki@;
                    assert(is_flag_entry(m, flags@[c] as int));
                    lemma_key_parts(m[flags@[c] as int].0);
                    lemma_key_parts(k@);
                    assert(flags@[c] < flags@[a as int]);
                }
            }
            items.push(ki);
            assert(texts(items@) =~= items0.push(key_item(m[b as int].0)));
        }
        assert forall|x: Seq<char>| #[trigger] texts(items@).contains(x) <==> item_before(m, flags@, a + 1, f@, x) by {
            if matched {
                crate::text::lemma_push_contains(items0, ki@, x);
            }
            if item_before(m, flags@, a + 1, f@, x) {
                let c = choose|c: int| 0 <= c < a + 1 && key_field(m[flags@[c] as int].0) == f@ && key_item(m[flags@[c] as int].0) == x;
                if c < a {
                    assert(item_before(m, flags@, a as int, f@, x));
                }
            }
            if item_before(m, flags@, a as int, f@, x) {
                let c = choose|c: int| 0 <= c < a && key_field(m[flags@[c] as int].0) == f@ && key_item(m[flags@[c] as int].0) == x;
                assert(0 <= c < a + 1);
            }
            if matched && x == ki@ {
                assert(0 <= a < a + 1);
            }
        }
        a = a + 1;
    }
    items
}

/// Lines `key: value` for the plain fields, keys given in order.
fn scalar_lines(meta: &Vec<(String, JsonValue)>, sorted_keys: &Vec<Vec<char>>) -> (r: Vec<Vec<char>>)
    requires
        distinct_keys(meta_model(meta@)),
        forall|x: Seq<char>| #[trigger] texts(sorted_keys@).contains(x) ==> scalar_key_before(meta_model(meta@), meta@.len() as int, x),
    ensures
        texts(r@) == Seq::new(sorted_keys@.len(), |a: int| front_matter_line_text(texts(sorted_keys@)[a], value_at(meta_model(meta@), texts(sorted_keys@)[a]))),
{
    let ghost m = meta_model(meta@);
    let ghost sk = texts(sorted_keys@);
    let n = meta.len();
    let mut lines: Vec<Vec<char>> = Vec::new();
    let mut j: usize = 0;
    while j < sorted_keys.len()
        invariant
            n == meta@.len(),
            m == meta_model(meta@),
            distinct_keys(m),
            sk == texts(sorted_keys@),
            forall|x: Seq<char>| #[trigger] sk.contains(x) ==> scalar_key_before(m, n as int, x),
            j <= sorted_keys@.len(),
            texts(lines@) == Seq::new(j as nat, |a: int| front_matter_line_text(sk[a], value_at(m, sk[a]))),
        decreases sorted_keys@.len() - j,
    {
        assert(sk[j as int] == sorted_keys@[j as int]@);
        assert(sk.contains(sk[j as int]));
        let mut b: usize = 0;
        while b < n && !crate::path::chars_eq(&key_chars(meta, b), &sorted_keys[j])
            invariant
                n == meta@.len(),
                m == meta_model(meta@),
                b <= n,
                j < sorted_keys@.len(),
                forall|c: int| 0 <= c < b ==> m[c].0 != sorted_keys@[j as int]@,
            decreases n - b,
        {
            b = b + 1;
        }
        if b == n {
            assert(false) by {
                let c = choose|c: int| 0 <= c < n && m[c].0 == sk[j as int] && is_scalar_entry(m, c);
            }
        }
        assert(value_at(m, sk[j as int]) == m[b as int].1) by {
            let c = choose|c: int| 0 <= c < m.len() && m[c].0 == sk[j as int];
            if c != b as int {
                assert(m[c].0 == m[b as int].0);
            }
        }
        let ghost before = texts(lines@);
        lines.push(line_chars(&sorted_keys[j], &meta[b].1));
        assert(texts(lines@) =~= Seq::new((j + 1) as nat, |a: int| front_matter_line_text(sk[a], value_at(m, sk[a])))) by {
            assert(texts(lines@) =~= before.push(front_matter_line_text(sk[j as int], value_at(m, sk[j as int]))));
        }
        j = j + 1;
    }
    lines
}

/// Lines `field: [a, b]` for the list fields, fields given in order.
fn list_lines(meta: &Vec<(String, JsonValue)>, flags: &Vec<usize>, sorted_fields: &Vec<Vec<char>>) -> (r: Vec<Vec<char>>)
    requires
        distinct_keys(meta_model(meta@)),
        forall|a: int| 0 <= a < flags@.len() ==> #[trigger] flags@[a] < meta@.len() && is_flag_entry(meta_model(meta@), flags@[a] as int),
        forall|a: int, c: int| 0 <= a < c < flags@.len() ==> flags@[a] < flags@[c],
        forall|b: int| 0 <= b < meta@.len() && is_flag_entry(meta_model(meta@), b) ==> flags@.contains(b as usize),
    ensures
        texts(r@) == Seq::new(sorted_fields@.len(), |a: int| list_line_text(meta_model(meta@), texts(sorted_fields@)[a])),
{
    let ghost m = meta_model(meta@);
    let ghost sf = texts(sorted_fields@);
    let n = meta.len();
    let mut lines: Vec<Vec<char>> = Vec::new();
    let mut g: usize = 0;
    while g < sorted_fields.len()
        invariant
            n == meta@.len(),
            m == meta_model(meta@),
            distinct_keys(m),
            sf == texts(sorted_fields@),
            forall|a: int| 0 <= a < flags@.len() ==> #[trigger] flags@[a] < meta@.len() && is_flag_entry(m, flags@[a] as int),
            forall|a: int, c: int| 0 <= a < c < flags@.len() ==> flags@[a] < flags@[c],
            forall|b: int| 0 <= b < meta@.len() && is_flag_entry(m, b) ==> flags@.contains(b as usize),
            g <= sorted_fields@.len(),
            texts(lines@) == Seq::new(g as nat, |a: int| list_line_text(m, sf[a])),
        decreases sorted_fields@.len() - g,
    {
        let f = &sorted_fields[g];
        let items = field_items(meta, flags, f);
        let sorted_items = sort_texts(items);
        proof {
            assert forall|x: Seq<char>| texts(sorted_items@).contains(x) <==> flag_items(m, f@).contains(x) by {
                if flag_items(m, f@).contains(x) {
                    let b = choose|b: int| 0 <= b < m.len() && is_flag_entry(m, b) && key_field(m[b].0) == f@ && key_item(m[b].0) == x;
                    assert(m.len() == meta@.len());
                    assert(flags@.contains(b as usize));
                    let c = choose|c: int| 0 <= c < flags@.len() && flags@[c] == b as usize;
                    assert(flags@[c] as int == b);
                    assert(item_before(m, flags@, flags@.len() as int, f@, x));
                }
                if texts(sorted_items@).contains(x) {
                    assert(item_before(m, flags@, flags@.len() as int, f@, x));
                    let c = choose|c: int| 0 <= c < flags@.len() && key_field(m[flags@[c] as int].0) == f@ && key_item(m[flags@[c] as int].0) == x;
                    assert(is_flag_entry(m, flags@[c] as int));
                }
            }
            lemma_sorted_set_unique(texts(sorted_items@), flag_items(m, f@));
        }
        let mut line = slice_of(f, 0, f.len());
        assert(line@ =~= f@);
        push_str(&mut line, ": [");
        push_all(&mut line, &join_exec(&sorted_items, &chars_of(", ")));
        push_str(&mut line, "]");
        assert(sf[g as int] == f@);
        let ghost before = texts(lines@);
        lines.push(line);
        assert(texts(lines@) =~= Seq::new((g + 1) as nat, |a: int| list_line_text(m, sf[a]))) by {
            assert(texts(lines@) =~= before.push(list_line_text(m, sf[g as int])));
        }
        g = g + 1;
    }
    lines
}

/// The sets of keys and fields are those found by scanning every entry.
proof fn lemma_sets_by_scan(m: Seq<(Seq<char>, ValueModel)>, x: Seq<char>)
    ensures
        scalar_keys(m).contains(x) <==> scalar_key_before(m, m.len() as int, x),
        flag_fields(m).contains(x) <==> flag_field_before(m, m.len() as int, x),
{
}

/// The listings found by scanning are the sorted listings of the sets.
proof fn lemma_sorted_listings(m: Seq<(Seq<char>, ValueModel)>, keys: Seq<Seq<char>>, fields: Seq<Seq<char>>)
    requires
        strictly_sorted(keys),
        strictly_sorted(fields),
        forall|x: Seq<char>| keys.contains(x) <==> scalar_key_before(m, m.len() as int, x),
        forall|x: Seq<char>| fields.contains(x) <==> flag_field_before(m, m.len() as int, x),
    ensures
        sorted_set(scalar_keys(m)) == keys,
        sorted_set(flag_fields(m)) == fields,
{
    assert forall|x: Seq<char>| keys.contains(x) <==> scalar_keys(m).contains(x) by {
        lemma_sets_by_scan(m, x);
    }
    assert forall|x: Seq<char>| fields.contains(x) <==> flag_fields(m).contains(x) by {
        lemma_sets_by_scan(m, x);
    }
    lemma_sorted_set_unique(keys, scalar_keys(m));
    lemma_sorted_set_unique(fields, flag_fields(m));
}

/// Build YAML front matter from a backend metadata map (one entry per key).
#[verifier::rlimit(40)]
pub fn front_matter_from_metadata(meta: &Vec<(String, JsonValue)>) -> (r: Option<String>)
    requires
        distinct_keys(meta_model(meta@)),
    ensures
        match r {
            Some(t) => front_matter_text(meta_model(meta@)) == Some(t@),
            None => front_matter_text(meta_model(meta@)) is None,
        },
{
    let ghost m = meta_model(meta@);
    let n = meta.len();
    let (keys, fields, flags) = classify(meta);
    let ghost has_scalars = exists|b: int| 0 <= b < m.len() && is_scalar_entry(m, b);
    let ghost has_flags = exists|b: int| 0 <= b < m.len() && is_flag_entry(m, b);
    if keys.len() == 0 && fields.len() == 0 {
        assert(!has_scalars) by {
            if has_scalars {
                let b = choose|b: int| 0 <= b < m.len() && is_scalar_entry(m, b);
                assert(scalar_key_before(m, n as int, m[b].0));
                assert(texts(keys@).contains(m[b].0));
            }
        }
        assert(!has_flags) by {
            if has_flags {
                let b = choose|b: int| 0 <= b < m.len() && is_flag_entry(m, b);
                assert(flag_field_before(m, n as int, key_field(m[b].0)));
                assert(texts(fields@).contains(key_field(m[b].0)));
            }
        }
        return None;
    }
    assert(has_scalars || has_flags) by {
        if keys.len() > 0 {
            assert(texts(keys@).contains(texts(keys@)[0]));
            assert(scalar_key_before(m, n as int, texts(keys@)[0]));
        } else {
            assert(texts(fields@).contains(texts(fields@)[0]));
            assert(flag_field_before(m, n as int, texts(fields@)[0]));
        }
    }
    let sorted_keys = sort_texts(keys);
    let sorted_fields = sort_texts(fields);
    proof {
        lemma_sorted_listings(m, texts(sorted_keys@), texts(sorted_fields@));
    }
    let mut lines = scalar_lines(meta, &sorted_keys);
    let ghost key_lines = texts(lines@);
    let mut more = list_lines(meta, &flags, &sorted_fields);
    let ghost field_lines = texts(more@);
    lines.append(&mut more);
    assert(texts(lines@) =~= key_lines + field_lines);
    let mut nl: Vec<char> = Vec::new();
    nl.push('\n');
    assert(nl@ =~= seq!['\n']);
    let out = join_exec(&lines, &nl);
    Some(string_of(&out))
}

// ---------------------------------------------------------------------------
// Editor entries from notes
// ---------------------------------------------------------------------------

/// `e` is a freshly opened note entry `id` at `path` with body `body` and
/// front matter `fm` (empty front matter counts as none).
pub open spec fn fresh_entry(e: EditorEntry, id: u64, path: Seq<char>, body: Seq<char>, fm: Option<Seq<char>>) -> bool {
    &&& e.title.id == id
    &&& e.title.path@ == path
    &&& !e.title.focused
    &&& !e.title.collapsed
    &&& e.content.text@ == body
    &&& e.content.html@ == Seq::<char>::empty()
    &&& !e.content.focused
    &&& e.backend == FileTreeBackend::Notes
    &&& match fm {
        Some(raw) => if raw.len() > 0 {
            e.front_matter matches Some(block) && block.raw@ == raw && !block.focused
        } else {
            e.front_matter is None
        },
        None => e.front_matter is None,
    }
}

/// Build an [`EditorEntry`] with title identifier `id` from a note path,
/// markdown body, and optional front matter YAML.
pub fn entry_from_content(id: u64, path: &str, body: &str, front_matter_raw: Option<String>) -> (r: EditorEntry)
    ensures
        fresh_entry(r, id, path@, body@, match front_matter_raw {
            Some(f) => Some(f@),
            None => None::<Seq<char>>,
        }),
{
    if body.is_empty() && front_matter_raw.is_none() {
        assert(body@ =~= Seq::<char>::empty());
        return EditorEntry::empty(id, path);
    }
    let mut entry = EditorEntry::new(id, path, body);
    match front_matter_raw {
        Some(raw) => {
            if !raw.as_str().is_empty() {
                entry.front_matter = Some(FrontMatterBlock::new(raw.as_str()));
            }
        },
        None => {},
    }
    entry
}

/// Build an [`EditorEntry`] from a full markdown file (body may include YAML front matter).
pub fn entry_from_markdown(id: u64, path: &str, text: &str) -> (r: EditorEntry)
    ensures
        fresh_entry(r, id, path@, split_of(text@).1, split_of(text@).0),
{
    if text.is_empty() {
        proof {
            crate::block::lemma_empty_split(text@);
        }
        return EditorEntry::empty(id, path);
    }
    let (fm_raw, content) = split_front_matter(text);
    entry_from_content(id, path, content.as_str(), fm_raw)
}

/// Build an [`EditorEntry`] from a backend note body and its metadata map.
pub fn entry_from_note(id: u64, path: &str, body: &str, metadata: &Vec<(String, JsonValue)>) -> (r: EditorEntry)
    requires
        distinct_keys(meta_model(metadata@)),
    ensures
        fresh_entry(r, id, path@, body@, front_matter_text(meta_model(metadata@))),
{
    entry_from_content(id, path, body, front_matter_from_metadata(metadata))
}

/// Replace any open note with the same backend path, then insert the new one before templates.
pub fn open_note_in_editor(entries: &mut Vec<EditorEntry>, entry: EditorEntry)
    ensures
        final(entries)@ == opened(old(entries)@, FileTreeBackend::Notes, entry),
{
    FileTreeBackend::Notes.open_in_editor(entries, entry);
}

/// Internal keys never contribute to the front matter: adding an entry under
/// `filename`, `text` or a key that starts with a newline leaves the front
/// matter of a metadata map as it was.
pub proof fn lemma_internal_key_ignored(m: Seq<(Seq<char>, ValueModel)>, k: Seq<char>, v: ValueModel)
    requires
        distinct_keys(m),
        is_internal_key(k),
    ensures
        front_matter_text(m.push((k, v))) == front_matter_text(m),
{
    let m2 = m.push((k, v));
    assert forall|i: int| 0 <= i < m.len() implies #[trigger] m2[i] == m[i] by {}
    assert(!is_scalar_entry(m2, m.len() as int));
    assert(!is_flag_entry(m2, m.len() as int));
    assert forall|i: int| 0 <= i < m.len() implies (is_scalar_entry(m2, i) == is_scalar_entry(m, i)
        && is_flag_entry(m2, i) == is_flag_entry(m, i)) by {
        assert(m2[i] == m[i]);
    }
    assert((exists|i: int| 0 <= i < m2.len() && is_scalar_entry(m2, i)) == (exists|i: int|
        0 <= i < m.len() && is_scalar_entry(m, i))) by {
        if exists|i: int| 0 <= i < m2.len() && is_scalar_entry(m2, i) {
            let i = choose|i: int| 0 <= i < m2.len() && is_scalar_entry(m2, i);
            assert(i < m.len());
            assert(is_scalar_entry(m, i));
        }
        if exists|i: int| 0 <= i < m.len() && is_scalar_entry(m, i) {
            let i = choose|i: int| 0 <= i < m.len() && is_scalar_entry(m, i);
            assert(is_scalar_entry(m2, i));
        }
    }
    assert((exists|i: int| 0 <= i < m2.len() && is_flag_entry(m2, i)) == (exists|i: int|
        0 <= i < m.len() && is_flag_entry(m, i))) by {
        if exists|i: int| 0 <= i < m2.len() && is_flag_entry(m2, i) {
            let i = choose|i: int| 0 <= i < m2.len() && is_flag_entry(m2, i);
            assert(i < m.len());
            assert(is_flag_entry(m, i));
        }
        if exists|i: int| 0 <= i < m.len() && is_flag_entry(m, i) {
            let i = choose|i: int| 0 <= i < m.len() && is_flag_entry(m, i);
            assert(is_flag_entry(m2, i));
        }
    }
    assert(scalar_keys(m2) =~= scalar_keys(m)) by {
        assert forall|x: Seq<char>| scalar_keys(m2).contains(x) implies scalar_keys(m).contains(x) by {
            let i = choose|i: int| 0 <= i < m2.len() && m2[i].0 == x && is_scalar_entry(m2, i);
            assert(i < m.len() && m[i].0 == x && is_scalar_entry(m, i));
        }
        assert forall|x: Seq<char>| scalar_keys(m).contains(x) implies scalar_keys(m2).contains(x) by {
            let i = choose|i: int| 0 <= i < m.len() && m[i].0 == x && is_scalar_entry(m, i);
            assert(m2[i].0 == x && is_scalar_entry(m2, i));
        }
    }
    assert(flag_fields(m2) =~= flag_fields(m)) by {
        assert forall|x: Seq<char>| flag_fields(m2).contains(x) implies flag_fields(m).contains(x) by {
            let i = choose|i: int| 0 <= i < m2.len() && is_flag_entry(m2, i) && key_field(m2[i].0) == x;
            assert(i < m.len() && is_flag_entry(m, i) && key_field(m[i].0) == x);
        }
        assert forall|x: Seq<char>| flag_fields(m).contains(x) implies flag_fields(m2).contains(x) by {
            let i = choose|i: int| 0 <= i < m.len() && is_flag_entry(m, i) && key_field(m[i].0) == x;
            assert(is_flag_entry(m2, i) && key_field(m2[i].0) == x);
        }
    }
    assert forall|f: Seq<char>| #[trigger] flag_items(m2, f) == flag_items(m, f) by {
        assert forall|x: Seq<char>| flag_items(m2, f).contains(x) implies flag_items(m, f).contains(x) by {
            let i = choose|i: int|
                0 <= i < m2.len() && is_flag_entry(m2, i) && key_field(m2[i].0) == f && key_item(m2[i].0) == x;
            assert(i < m.len() && is_flag_entry(m, i) && key_field(m[i].0) == f && key_item(m[i].0) == x);
        }
        assert forall|x: Seq<char>| flag_items(m, f).contains(x) implies flag_items(m2, f).contains(x) by {
            let i = choose|i: int|
                0 <= i < m.len() && is_flag_entry(m, i) && key_field(m[i].0) == f && key_item(m[i].0) == x;
            assert(is_flag_entry(m2, i) && key_field(m2[i].0) == f && key_item(m2[i].0) == x);
        }
        assert(flag_items(m2, f) =~= flag_items(m, f));
    }
    assert forall|x: Seq<char>| scalar_keys(m).contains(x) implies #[trigger] value_at(m2, x) == value_at(m, x) by {
        assert(!is_internal_key(x)) by {
            let i = choose|i: int| 0 <= i < m.len() && m[i].0 == x && is_scalar_entry(m, i);
        }
        assert(x != k);
        let i0 = choose|i: int| 0 <= i < m.len() && m[i].0 == x && is_scalar_entry(m, i);
        assert(m2[i0] == m[i0]);
        let a = choose|i: int| 0 <= i < m2.len() && m2[i].0 == x;
        let b = choose|i: int| 0 <= i < m.len() && m[i].0 == x;
        assert(0 <= a < m2.len() && m2[a].0 == x);
        assert(0 <= b < m.len() && m[b].0 == x);
        assert(a < m.len());
        assert(m2[a] == m[a]);
        assert(a == i0);
        assert(b == i0);
    }
    let keys = sorted_set(scalar_keys(m));
    assert(Seq::new(keys.len(), |j: int| front_matter_line_text(keys[j], value_at(m2, keys[j]))) =~= Seq::new(
        keys.len(),
        |j: int| front_matter_line_text(keys[j], value_at(m, keys[j])),
    )) by {
        assert forall|j: int| 0 <= j < keys.len() implies scalar_keys(m).contains(#[trigger] keys[j]) by {
            lemma_sorted_set_members(scalar_keys(m), j);
        }
    }
    let fields = sorted_set(flag_fields(m));
    assert(Seq::new(fields.len(), |j: int| list_line_text(m2, fields[j])) =~= Seq::new(
        fields.len(),
        |j: int| list_line_text(m, fields[j]),
    )) by {
        assert forall|j: int| 0 <= j < fields.len() implies list_line_text(m2, fields[j]) == list_line_text(
            m,
            fields[j],
        ) by {
            assert(flag_items(m2, fields[j]) == flag_items(m, fields[j]));
        }
    }
}

/// A scalar metadata value shows as itself: a boolean as the text of that
/// boolean (so `true` and `false` never show alike), a number as its digits,
/// a string as its text, null as nothing; its front-matter line is the key,
/// `: ` and that text.
pub proof fn lemma_scalar_shows_as_itself(key: Seq<char>, b: bool, t: Seq<char>)
    ensures
        yaml_scalar_text(ScalarModel::Bool(b)) == (if b { "true"@ } else { "false"@ }),
        yaml_scalar_text(ScalarModel::Bool(true)) != yaml_scalar_text(ScalarModel::Bool(false)),
        front_matter_line_text(key, ValueModel::Scalar(ScalarModel::Bool(b))) == key + ": "@ + (if b {
            "true"@
        } else {
            "false"@
        }),
        yaml_scalar_text(ScalarModel::Number(t)) == t,
        yaml_scalar_text(ScalarModel::Str(t)) == t,
        yaml_scalar_text(ScalarModel::Null) == Seq::<char>::empty(),
{
    reveal_strlit("true");
    reveal_strlit("false");
    assert("true"@.len() != "false"@.len());
}

} // verus!
