//! The settings form: which parser and message belong to each field, how a
//! typed value is applied while typing and committed on change, how the form
//! shows each value, and how a hotkey field captures a key.
//!
//! The two floating-point fields (temperature and top P) are not held here.

use vstd::prelude::*;
use crate::default_settings::{
    DEFAULT_EXPORT_HOTKEY_KEY, DEFAULT_GEMINI_API_KEY, DEFAULT_GEMINI_MODEL,
    DEFAULT_IMPORT_HOTKEY_KEY, DEFAULT_NEW_FILE_HOTKEY_KEY, DEFAULT_NUMBER_RESULTS_PER_PAGE,
    DEFAULT_OLLAMA_MODEL, DEFAULT_OLLAMA_NUM_CTX, DEFAULT_OLLAMA_NUM_PREDICT, DEFAULT_OLLAMA_PORT,
    DEFAULT_OLLAMA_THINK, DEFAULT_OLLAMA_TOP_K, DEFAULT_SAVE_HOTKEY_KEY,
    DEFAULT_TOGGLE_MARKDOWN_EDITING_HOTKEY_KEY,
};
use crate::hotkeys::{
    ascii_upper, format_ctrl_hotkey, hotkey_capture, hotkey_capture_of, HotkeyCapture, HotkeyKeys,
};
use crate::info_messages::{
    invalid_setting_text, invalid_setting_toast, with_hotkey, with_hotkey_text,
    CTRL_HOTKEY_PREFIX, EXPORT_HOTKEY_LABEL, GEMINI_API_KEY_CONSTRAINT, GEMINI_API_KEY_LABEL,
    GEMINI_MODEL_CONSTRAINT, GEMINI_MODEL_LABEL, HOTKEY_CONSTRAINT, IMPORT_HOTKEY_LABEL,
    NEW_FILE_HOTKEY_LABEL, OLLAMA_MODEL_CONSTRAINT, OLLAMA_MODEL_LABEL,
    OLLAMA_NUM_CTX_CONSTRAINT, OLLAMA_NUM_CTX_LABEL, OLLAMA_NUM_PREDICT_CONSTRAINT,
    OLLAMA_NUM_PREDICT_LABEL, OLLAMA_PORT_CONSTRAINT, OLLAMA_PORT_LABEL,
    OLLAMA_TOP_K_CONSTRAINT, OLLAMA_TOP_K_LABEL, RESULTS_PER_PAGE_CONSTRAINT,
    RESULTS_PER_PAGE_LABEL, SAVE_HOTKEY_LABEL, TOGGLE_MARKDOWN_EDITING_HOTKEY_LABEL,
};
use crate::settings_validation::{
    model_name_of, parse_gemini_api_key, parse_gemini_model, parse_ollama_model,
    parse_ollama_num_predict, parse_ollama_port, parse_positive_u32, parse_results_per_page,
    signed_text, unsigned_text, api_key_of,
};
use crate::text::{chars_of, has_char, decimal, decimal_exec, push_all, string_of};

verus! {

/// The values of the settings form that are not floating point.
pub struct Settings {
    pub results_per_page: usize,
    pub ollama_port: u16,
    pub ollama_model: String,
    pub ollama_num_predict: i32,
    pub ollama_num_ctx: u32,
    pub ollama_top_k: u32,
    pub ollama_think: bool,
    pub gemini_api_key: String,
    pub gemini_model: String,
    pub hotkeys: HotkeyKeys,
}

/// A text or number field of the settings form.
#[derive(Clone, Copy, PartialEq, Eq, Debug, Structural)]
pub enum SettingField {
    ResultsPerPage,
    OllamaPort,
    OllamaModel,
    OllamaNumPredict,
    OllamaNumCtx,
    OllamaTopK,
    GeminiApiKey,
    GeminiModel,
}

/// A hotkey field of the settings form.
#[derive(Clone, Copy, PartialEq, Eq, Debug, Structural)]
pub enum HotkeyField {
    Save,
    NewFile,
    Import,
    Export,
    ToggleMarkdownEditing,
}

/// What a key press in a hotkey field did.
pub enum HotkeyKeyOutcome {
    /// A navigation or modifier key: left to the browser.
    Passed,
    /// The hotkey now is this letter.
    Assigned(char),
    /// Refused, with the error toast to show.
    Rejected(String),
}

// ---------------------------------------------------------------------------
// Specifications
// ---------------------------------------------------------------------------

/// The label of a field.
pub open spec fn label_of(f: SettingField) -> Seq<char> {
    match f {
        SettingField::ResultsPerPage => RESULTS_PER_PAGE_LABEL@,
        SettingField::OllamaPort => OLLAMA_PORT_LABEL@,
        SettingField::OllamaModel => OLLAMA_MODEL_LABEL@,
        SettingField::OllamaNumPredict => OLLAMA_NUM_PREDICT_LABEL@,
        SettingField::OllamaNumCtx => OLLAMA_NUM_CTX_LABEL@,
        SettingField::OllamaTopK => OLLAMA_TOP_K_LABEL@,
        SettingField::GeminiApiKey => GEMINI_API_KEY_LABEL@,
        SettingField::GeminiModel => GEMINI_MODEL_LABEL@,
    }
}

/// The constraint a field's toast names.
pub open spec fn constraint_of(f: SettingField) -> Seq<char> {
    match f {
        SettingField::ResultsPerPage => RESULTS_PER_PAGE_CONSTRAINT@,
        SettingField::OllamaPort => OLLAMA_PORT_CONSTRAINT@,
        SettingField::OllamaModel => OLLAMA_MODEL_CONSTRAINT@,
        SettingField::OllamaNumPredict => OLLAMA_NUM_PREDICT_CONSTRAINT@,
        SettingField::OllamaNumCtx => OLLAMA_NUM_CTX_CONSTRAINT@,
        SettingField::OllamaTopK => OLLAMA_TOP_K_CONSTRAINT@,
        SettingField::GeminiApiKey => GEMINI_API_KEY_CONSTRAINT@,
        SettingField::GeminiModel => GEMINI_MODEL_CONSTRAINT@,
    }
}

/// Whether a field holds text rather than a number.
pub open spec fn is_text_field(f: SettingField) -> bool {
    f == SettingField::OllamaModel || f == SettingField::GeminiApiKey || f
        == SettingField::GeminiModel
}

/// `v` when it lies in `lo..=hi`.
pub open spec fn within(v: Option<int>, lo: int, hi: int) -> Option<int> {
    match v {
        Some(n) => if lo <= n <= hi {
            Some(n)
        } else {
            None
        },
        None => None,
    }
}

/// The number a numeric field takes from `raw`, if `raw` is valid for it.
pub open spec fn number_of(f: SettingField, raw: Seq<char>) -> Option<int> {
    let u = match unsigned_text(raw) {
        Some(v) => Some(v as int),
        None => None,
    };
    match f {
        SettingField::ResultsPerPage => within(u, 1, usize::MAX as int),
        SettingField::OllamaPort => within(u, 1, 65535),
        SettingField::OllamaNumPredict => within(signed_text(raw), -1, i32::MAX as int),
        SettingField::OllamaNumCtx => within(u, 1, u32::MAX as int),
        SettingField::OllamaTopK => within(u, 1, u32::MAX as int),
        _ => None,
    }
}

/// The text a text field takes from `raw`, if `raw` is valid for it.
pub open spec fn text_of(f: SettingField, raw: Seq<char>) -> Option<Seq<char>> {
    match f {
        SettingField::OllamaModel => model_name_of(raw),
        SettingField::GeminiApiKey => api_key_of(raw),
        SettingField::GeminiModel => match model_name_of(raw) {
            Some(m) => if has_char(m, '/') {
                None
            } else {
                Some(m)
            },
            None => None,
        },
        _ => None,
    }
}

/// Whether `raw` is a valid value for field `f`.
pub open spec fn accepted(f: SettingField, raw: Seq<char>) -> bool {
    if is_text_field(f) {
        text_of(f, raw) is Some
    } else {
        number_of(f, raw) is Some
    }
}

/// `t` equals `s` in every field but `f`.
pub open spec fn same_except(s: Settings, t: Settings, f: SettingField) -> bool {
    &&& (f != SettingField::ResultsPerPage ==> t.results_per_page == s.results_per_page)
    &&& (f != SettingField::OllamaPort ==> t.ollama_port == s.ollama_port)
    &&& (f != SettingField::OllamaModel ==> t.ollama_model == s.ollama_model)
    &&& (f != SettingField::OllamaNumPredict ==> t.ollama_num_predict == s.ollama_num_predict)
    &&& (f != SettingField::OllamaNumCtx ==> t.ollama_num_ctx == s.ollama_num_ctx)
    &&& (f != SettingField::OllamaTopK ==> t.ollama_top_k == s.ollama_top_k)
    &&& (f != SettingField::GeminiApiKey ==> t.gemini_api_key == s.gemini_api_key)
    &&& (f != SettingField::GeminiModel ==> t.gemini_model == s.gemini_model)
    &&& t.ollama_think == s.ollama_think
    &&& t.hotkeys == s.hotkeys
}

/// The value field `f` shows, as text.
pub open spec fn shown(s: Settings, f: SettingField) -> Seq<char> {
    match f {
        SettingField::ResultsPerPage => decimal(s.results_per_page as nat),
        SettingField::OllamaPort => decimal(s.ollama_port as nat),
        SettingField::OllamaModel => s.ollama_model@,
        SettingField::OllamaNumPredict => signed_decimal(s.ollama_num_predict as int),
        SettingField::OllamaNumCtx => decimal(s.ollama_num_ctx as nat),
        SettingField::OllamaTopK => decimal(s.ollama_top_k as nat),
        SettingField::GeminiApiKey => s.gemini_api_key@,
        SettingField::GeminiModel => s.gemini_model@,
    }
}

/// `t` is `s` with field `f` set from the valid value `raw`.
pub open spec fn set_from(s: Settings, t: Settings, f: SettingField, raw: Seq<char>) -> bool {
    &&& same_except(s, t, f)
    &&& if is_text_field(f) {
        text_of(f, raw) == Some(shown(t, f))
    } else {
        number_of(f, raw) == Some(value_number(t, f))
    }
}

/// The number a numeric field holds.
pub open spec fn value_number(s: Settings, f: SettingField) -> int {
    match f {
        SettingField::ResultsPerPage => s.results_per_page as int,
        SettingField::OllamaPort => s.ollama_port as int,
        SettingField::OllamaNumPredict => s.ollama_num_predict as int,
        SettingField::OllamaNumCtx => s.ollama_num_ctx as int,
        SettingField::OllamaTopK => s.ollama_top_k as int,
        _ => 0,
    }
}

/// The decimal text of an integer, with a leading `-` when negative.
pub open spec fn signed_decimal(v: int) -> Seq<char> {
    if v < 0 {
        seq!['-'] + decimal((-v) as nat)
    } else {
        decimal(v as nat)
    }
}

/// The label of a hotkey field.
pub open spec fn hotkey_label_of(h: HotkeyField) -> Seq<char> {
    match h {
        HotkeyField::Save => SAVE_HOTKEY_LABEL@,
        HotkeyField::NewFile => NEW_FILE_HOTKEY_LABEL@,
        HotkeyField::Import => IMPORT_HOTKEY_LABEL@,
        HotkeyField::Export => EXPORT_HOTKEY_LABEL@,
        HotkeyField::ToggleMarkdownEditing => TOGGLE_MARKDOWN_EDITING_HOTKEY_LABEL@,
    }
}

/// The letter a hotkey field holds.
pub open spec fn hotkey_of_field(k: HotkeyKeys, h: HotkeyField) -> char {
    match h {
        HotkeyField::Save => k.save,
        HotkeyField::NewFile => k.new_file,
        HotkeyField::Import => k.import,
        HotkeyField::Export => k.export,
        HotkeyField::ToggleMarkdownEditing => k.toggle_markdown_editing,
    }
}

/// `k` with hotkey field `h` set to `c`.
pub open spec fn hotkey_set(k: HotkeyKeys, h: HotkeyField, c: char) -> HotkeyKeys {
    match h {
        HotkeyField::Save => HotkeyKeys { save: c, ..k },
        HotkeyField::NewFile => HotkeyKeys { new_file: c, ..k },
        HotkeyField::Import => HotkeyKeys { import: c, ..k },
        HotkeyField::Export => HotkeyKeys { export: c, ..k },
        HotkeyField::ToggleMarkdownEditing => HotkeyKeys { toggle_markdown_editing: c, ..k },
    }
}

/// Every field but the hotkeys of `t` equals that of `s`.
pub open spec fn same_but_hotkeys(s: Settings, t: Settings) -> bool {
    &&& t.results_per_page == s.results_per_page
    &&& t.ollama_port == s.ollama_port
    &&& t.ollama_model == s.ollama_model
    &&& t.ollama_num_predict == s.ollama_num_predict
    &&& t.ollama_num_ctx == s.ollama_num_ctx
    &&& t.ollama_top_k == s.ollama_top_k
    &&& t.ollama_think == s.ollama_think
    &&& t.gemini_api_key == s.gemini_api_key
    &&& t.gemini_model == s.gemini_model
}

// ---------------------------------------------------------------------------
// Functions
// ---------------------------------------------------------------------------

/// The label of a field.
pub fn field_label(f: SettingField) -> (r: &'static str)
    ensures
        r@ == label_of(f),
{
    match f {
        SettingField::ResultsPerPage => RESULTS_PER_PAGE_LABEL,
        SettingField::OllamaPort => OLLAMA_PORT_LABEL,
        SettingField::OllamaModel => OLLAMA_MODEL_LABEL,
        SettingField::OllamaNumPredict => OLLAMA_NUM_PREDICT_LABEL,
        SettingField::OllamaNumCtx => OLLAMA_NUM_CTX_LABEL,
        SettingField::OllamaTopK => OLLAMA_TOP_K_LABEL,
        SettingField::GeminiApiKey => GEMINI_API_KEY_LABEL,
        SettingField::GeminiModel => GEMINI_MODEL_LABEL,
    }
}

/// The constraint a field's toast names.
pub fn field_constraint(f: SettingField) -> (r: &'static str)
    ensures
        r@ == constraint_of(f),
{
    match f {
        SettingField::ResultsPerPage => RESULTS_PER_PAGE_CONSTRAINT,
        SettingField::OllamaPort => OLLAMA_PORT_CONSTRAINT,
        SettingField::OllamaModel => OLLAMA_MODEL_CONSTRAINT,
        SettingField::OllamaNumPredict => OLLAMA_NUM_PREDICT_CONSTRAINT,
        SettingField::OllamaNumCtx => OLLAMA_NUM_CTX_CONSTRAINT,
        SettingField::OllamaTopK => OLLAMA_TOP_K_CONSTRAINT,
        SettingField::GeminiApiKey => GEMINI_API_KEY_CONSTRAINT,
        SettingField::GeminiModel => GEMINI_MODEL_CONSTRAINT,
    }
}

impl Settings {
    /// The settings a new session starts with.
    pub fn defaults() -> (r: Self)
        ensures
            r.results_per_page == DEFAULT_NUMBER_RESULTS_PER_PAGE,
            r.ollama_port == DEFAULT_OLLAMA_PORT,
            r.ollama_model@ == DEFAULT_OLLAMA_MODEL@,
            r.ollama_num_predict == DEFAULT_OLLAMA_NUM_PREDICT,
            r.ollama_num_ctx == DEFAULT_OLLAMA_NUM_CTX,
            r.ollama_top_k == DEFAULT_OLLAMA_TOP_K,
            r.ollama_think == DEFAULT_OLLAMA_THINK,
            r.gemini_api_key@ == DEFAULT_GEMINI_API_KEY@,
            r.gemini_model@ == DEFAULT_GEMINI_MODEL@,
            r.hotkeys == (HotkeyKeys {
                save: DEFAULT_SAVE_HOTKEY_KEY,
                new_file: DEFAULT_NEW_FILE_HOTKEY_KEY,
                import: DEFAULT_IMPORT_HOTKEY_KEY,
                export: DEFAULT_EXPORT_HOTKEY_KEY,
                toggle_markdown_editing: DEFAULT_TOGGLE_MARKDOWN_EDITING_HOTKEY_KEY,
            }),
    {
        Settings {
            results_per_page: DEFAULT_NUMBER_RESULTS_PER_PAGE,
            ollama_port: DEFAULT_OLLAMA_PORT,
            ollama_model: DEFAULT_OLLAMA_MODEL.to_string(),
            ollama_num_predict: DEFAULT_OLLAMA_NUM_PREDICT,
            ollama_num_ctx: DEFAULT_OLLAMA_NUM_CTX,
            ollama_top_k: DEFAULT_OLLAMA_TOP_K,
            ollama_think: DEFAULT_OLLAMA_THINK,
            gemini_api_key: DEFAULT_GEMINI_API_KEY.to_string(),
            gemini_model: DEFAULT_GEMINI_MODEL.to_string(),
            hotkeys: HotkeyKeys {
                save: DEFAULT_SAVE_HOTKEY_KEY,
                new_file: DEFAULT_NEW_FILE_HOTKEY_KEY,
                import: DEFAULT_IMPORT_HOTKEY_KEY,
                export: DEFAULT_EXPORT_HOTKEY_KEY,
                toggle_markdown_editing: DEFAULT_TOGGLE_MARKDOWN_EDITING_HOTKEY_KEY,
            },
        }
    }
}

/// The decimal text of an `i32`, with a leading `-` when negative.
pub fn signed_decimal_string(v: i32) -> (r: String)
    ensures
        r@ == signed_decimal(v as int),
{
    if v < 0 {
        let magnitude: i64 = -(v as i64);
        let mut out: Vec<char> = Vec::new();
        out.push('-');
        let digits = decimal_exec(magnitude as usize);
        push_all(&mut out, &digits);
        string_of(&out)
    } else {
        let digits = decimal_exec(v as usize);
        string_of(&digits)
    }
}

/// Return the value field `f` shows.
pub fn field_text(s: &Settings, f: SettingField) -> (r: String)
    ensures
        r@ == shown(*s, f),
{
    match f {
        SettingField::ResultsPerPage => string_of(&decimal_exec(s.results_per_page)),
        SettingField::OllamaPort => string_of(&decimal_exec(s.ollama_port as usize)),
        SettingField::OllamaModel => s.ollama_model.clone(),
        SettingField::OllamaNumPredict => signed_decimal_string(s.ollama_num_predict),
        SettingField::OllamaNumCtx => string_of(&decimal_exec(s.ollama_num_ctx as usize)),
        SettingField::OllamaTopK => string_of(&decimal_exec(s.ollama_top_k as usize)),
        SettingField::GeminiApiKey => s.gemini_api_key.clone(),
        SettingField::GeminiModel => s.gemini_model.clone(),
    }
}

/// Set field `f` from `raw` when `raw` is valid for it. Return whether it was.
fn set_if_valid(s: &mut Settings, f: SettingField, raw: &str) -> (ok: bool)
    ensures
        ok == accepted(f, raw@),
        ok ==> set_from(*old(s), *final(s), f, raw@),
        !ok ==> *final(s) == *old(s),
{
    match f {
        SettingField::ResultsPerPage => match parse_results_per_page(raw) {
            Some(v) => {
                s.results_per_page = v;
                true
            },
            None => false,
        },
        SettingField::OllamaPort => match parse_ollama_port(raw) {
            Some(v) => {
                s.ollama_port = v;
                true
            },
            None => false,
        },
        SettingField::OllamaModel => match parse_ollama_model(raw) {
            Some(v) => {
                s.ollama_model = v;
                true
            },
            None => false,
        },
        SettingField::OllamaNumPredict => match parse_ollama_num_predict(raw) {
            Some(v) => {
                s.ollama_num_predict = v;
                true
            },
            None => false,
        },
        SettingField::OllamaNumCtx => match parse_positive_u32(raw) {
            Some(v) => {
                s.ollama_num_ctx = v;
                true
            },
            None => false,
        },
        SettingField::OllamaTopK => match parse_positive_u32(raw) {
            Some(v) => {
                s.ollama_top_k = v;
                true
            },
            None => false,
        },
        SettingField::GeminiApiKey => match parse_gemini_api_key(raw) {
            Some(v) => {
                s.gemini_api_key = v;
                true
            },
            None => false,
        },
        SettingField::GeminiModel => match parse_gemini_model(raw) {
            Some(v) => {
                s.gemini_model = v;
                true
            },
            None => false,
        },
    }
}

/// While typing: apply `raw` to field `f` when it is valid; ignore it otherwise.
pub fn apply_if_valid(s: &mut Settings, f: SettingField, raw: &str)
    ensures
        accepted(f, raw@) ==> set_from(*old(s), *final(s), f, raw@),
        !accepted(f, raw@) ==> *final(s) == *old(s),
{
    let _ = set_if_valid(s, f, raw);
}

/// On change: apply `raw` to field `f` when it is valid; otherwise leave the
/// settings as they were and return the invalid-setting toast (the input then
/// shows [`field_text`] again).
pub fn commit_setting(s: &mut Settings, f: SettingField, raw: &str) -> (toast: Option<String>)
    ensures
        accepted(f, raw@) ==> set_from(*old(s), *final(s), f, raw@) && toast is None,
        !accepted(f, raw@) ==> *final(s) == *old(s) && (toast matches Some(t) && t@
            == invalid_setting_text(label_of(f), constraint_of(f))),
{
    if set_if_valid(s, f, raw) {
        None
    } else {
        Some(invalid_setting_toast(field_label(f), field_constraint(f)))
    }
}

/// The label of a hotkey field.
pub fn hotkey_label(h: HotkeyField) -> (r: &'static str)
    ensures
        r@ == hotkey_label_of(h),
{
    match h {
        HotkeyField::Save => SAVE_HOTKEY_LABEL,
        HotkeyField::NewFile => NEW_FILE_HOTKEY_LABEL,
        HotkeyField::Import => IMPORT_HOTKEY_LABEL,
        HotkeyField::Export => EXPORT_HOTKEY_LABEL,
        HotkeyField::ToggleMarkdownEditing => TOGGLE_MARKDOWN_EDITING_HOTKEY_LABEL,
    }
}

/// The letter hotkey field `h` holds.
pub fn hotkey_key(k: HotkeyKeys, h: HotkeyField) -> (r: char)
    ensures
        r == hotkey_of_field(k, h),
{
    match h {
        HotkeyField::Save => k.save,
        HotkeyField::NewFile => k.new_file,
        HotkeyField::Import => k.import,
        HotkeyField::Export => k.export,
        HotkeyField::ToggleMarkdownEditing => k.toggle_markdown_editing,
    }
}

/// The label of hotkey field `h` with its current `Ctrl+` key.
pub fn hotkey_field_label(s: &Settings, h: HotkeyField) -> (r: String)
    ensures
        r@ == with_hotkey_text(
            hotkey_label_of(h),
            CTRL_HOTKEY_PREFIX@.push(ascii_upper(hotkey_of_field(s.hotkeys, h))),
        ),
{
    let key = format_ctrl_hotkey(hotkey_key(s.hotkeys, h));
    with_hotkey(hotkey_label(h), key.as_str())
}

/// A key press in hotkey field `h`: navigation and modifier keys pass, a
/// printable key becomes the hotkey, anything else is refused with a toast.
pub fn hotkey_keydown(s: &mut Settings, h: HotkeyField, key: &str) -> (r: HotkeyKeyOutcome)
    ensures
        same_but_hotkeys(*old(s), *final(s)),
        match hotkey_capture_of(key@) {
            HotkeyCapture::Ignore => r is Passed && final(s).hotkeys == old(s).hotkeys,
            HotkeyCapture::Assign(c) => r == HotkeyKeyOutcome::Assigned(c) && final(s).hotkeys
                == hotkey_set(old(s).hotkeys, h, c),
            HotkeyCapture::Reject => r matches HotkeyKeyOutcome::Rejected(t) && t@
                == invalid_setting_text(hotkey_label_of(h), HOTKEY_CONSTRAINT@)
                && final(s).hotkeys == old(s).hotkeys,
        },
{
    match hotkey_capture(key) {
        HotkeyCapture::Ignore => HotkeyKeyOutcome::Passed,
        HotkeyCapture::Assign(c) => {
            match h {
                HotkeyField::Save => s.hotkeys.save = c,
                HotkeyField::NewFile => s.hotkeys.new_file = c,
                HotkeyField::Import => s.hotkeys.import = c,
                HotkeyField::Export => s.hotkeys.export = c,
                HotkeyField::ToggleMarkdownEditing => s.hotkeys.toggle_markdown_editing = c,
            }
            HotkeyKeyOutcome::Assigned(c)
        },
        HotkeyCapture::Reject => HotkeyKeyOutcome::Rejected(
            invalid_setting_toast(hotkey_label(h), HOTKEY_CONSTRAINT),
        ),
    }
}

// ---------------------------------------------------------------------------
// Laws
// ---------------------------------------------------------------------------

/// The lowest value a whole-number field accepts.
pub open spec fn lowest_number(f: SettingField) -> int {
    if f == SettingField::OllamaNumPredict {
        -1
    } else {
        1
    }
}

/// What the form shows for a whole-number field holding an acceptable value
/// reads back as that value: committing the shown text changes nothing.
pub proof fn lemma_shown_number_reparses(s: Settings, f: SettingField)
    requires
        !is_text_field(f),
        value_number(s, f) >= lowest_number(f),
    ensures
        number_of(f, shown(s, f)) == Some(value_number(s, f)),
{
    let v = value_number(s, f);
    if v >= 0 {
        crate::settings_validation::lemma_unsigned_round_trip(v as nat);
    } else {
        crate::settings_validation::lemma_unsigned_round_trip((-v) as nat);
        let t = seq!['-'] + decimal((-v) as nat);
        assert(t.drop_first() =~= decimal((-v) as nat));
        assert(t[0] == '-');
    }
}

} // verus!
