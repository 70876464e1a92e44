//! Validation of the values typed into the settings panel: decimal integers
//! as `str::parse` reads them, model names, API keys, and floats still being
//! typed.

use vstd::prelude::*;
use crate::info_messages::{invalid_setting_text, invalid_setting_toast};
use crate::text::{
    decimal, digit_char, chars_of, ends_with_str, has_char, has_char_exec, is_suffix, is_ws, is_ws_exec, string_of,
    trim, trimmed_chars,
};

verus! {

// ---------------------------------------------------------------------------
// Decimal integers
// ---------------------------------------------------------------------------

/// `c` is an ASCII digit.
pub open spec fn is_digit(c: char) -> bool {
    '0' <= c <= '9'
}

/// The value of digit `c`.
pub open spec fn digit_value(c: char) -> nat {
    ((c as u32) - 48) as nat
}

/// The value of a string of digits.
pub open spec fn digits_value(s: Seq<char>) -> nat
    decreases s.len(),
{
    if s.len() == 0 {
        0
    } else {
        digits_value(s.drop_last()) * 10 + digit_value(s.last())
    }
}

/// A non-empty string of digits.
pub open spec fn all_digits(s: Seq<char>) -> bool {
    s.len() > 0 && forall|i: int| 0 <= i < s.len() ==> is_digit(s[i])
}

/// The magnitude of an unsigned decimal text as `str::parse` reads it: an
/// optional `+` and then at least one digit.
pub open spec fn unsigned_text(s: Seq<char>) -> Option<nat> {
    let d = if s.len() > 0 && s[0] == '+' {
        s.drop_first()
    } else {
        s
    };
    if all_digits(d) {
        Some(digits_value(d))
    } else {
        None
    }
}

/// The value of a signed decimal text as `str::parse` reads it: an optional
/// `+` or `-` and then at least one digit.
pub open spec fn signed_text(s: Seq<char>) -> Option<int> {
    if s.len() > 0 && s[0] == '-' {
        let d = s.drop_first();
        if all_digits(d) {
            Some(-digits_value(d))
        } else {
            None
        }
    } else {
        match unsigned_text(s) {
            Some(v) => Some(v as int),
            None => None,
        }
    }
}

/// A longer string of digits is worth at least as much as its prefix.
proof fn lemma_digits_grow(s: Seq<char>, k: int)
    requires
        0 <= k <= s.len(),
        forall|i: int| 0 <= i < s.len() ==> is_digit(s[i]),
    ensures
        digits_value(s.subrange(0, k)) <= digits_value(s),
    decreases s.len() - k,
{
    if k < s.len() {
        lemma_digits_grow(s, k + 1);
        let p = s.subrange(0, k + 1);
        assert(p.drop_last() =~= s.subrange(0, k));
    } else {
        assert(s.subrange(0, k) =~= s);
    }
}

/// The value of the digits `d`, when it is at most `max`.
fn digits_at_most(d: &Vec<char>, start: usize, max: u128) -> (r: Option<u128>)
    requires
        start <= d@.len(),
        max <= u64::MAX,
    ensures
        match r {
            Some(v) => all_digits(d@.subrange(start as int, d@.len() as int)) && v as nat
                == digits_value(d@.subrange(start as int, d@.len() as int)) && v <= max,
            None => !(all_digits(d@.subrange(start as int, d@.len() as int)) && digits_value(
                d@.subrange(start as int, d@.len() as int),
            ) <= max),
        },
{
    let ghost s = d@.subrange(start as int, d@.len() as int);
    if start == d.len() {
        return None;
    }
    let mut acc: u128 = 0;
    let mut i = start;
    while i < d.len()
        invariant
            start <= i <= d@.len(),
            s == d@.subrange(start as int, d@.len() as int),
            max <= u64::MAX,
            forall|j: int| start <= j < i ==> is_digit(d@[j]),
            acc as nat == digits_value(d@.subrange(start as int, i as int)),
            acc <= max,
        decreases d@.len() - i,
    {
        let c = d[i];
        let ghost next = d@.subrange(start as int, i + 1);
        assert(next.drop_last() =~= d@.subrange(start as int, i as int));
        if !('0' <= c && c <= '9') {
            assert(!is_digit(s[i - start]));
            return None;
        }
        let v = (c as u32 - 48) as u128;
        let bigger = acc * 10 + v;
        if bigger > max {
            proof {
                if all_digits(s) {
                    lemma_digits_grow(s, i + 1 - start);
                    assert(s.subrange(0, i + 1 - start) =~= next);
                }
            }
            return None;
        }
        acc = bigger;
        i = i + 1;
    }
    assert(d@.subrange(start as int, i as int) =~= s);
    Some(acc)
}

/// The magnitude of an unsigned decimal text, when it is at most `max`.
pub fn parse_unsigned_at_most(raw: &str, max: u128) -> (r: Option<u128>)
    requires
        max <= u64::MAX,
    ensures
        match r {
            Some(v) => unsigned_text(raw@) == Some(v as nat) && v <= max,
            None => !(unsigned_text(raw@) matches Some(v) && v <= max),
        },
{
    let d = chars_of(raw);
    let start: usize = if d.len() > 0 && d[0] == '+' {
        1
    } else {
        0
    };
    proof {
        if d@.len() > 0 && d@[0] == '+' {
            assert(d@.subrange(1, d@.len() as int) =~= d@.drop_first());
        } else {
            assert(d@.subrange(0, d@.len() as int) =~= d@);
        }
    }
    digits_at_most(&d, start, max)
}

/// The value of a signed decimal text, when it lies in `[-neg_max, pos_max]`.
pub fn parse_signed_within(raw: &str, neg_max: u128, pos_max: u128) -> (r: Option<i128>)
    requires
        neg_max <= u64::MAX,
        pos_max <= u64::MAX,
    ensures
        match r {
            Some(v) => signed_text(raw@) == Some(v as int) && -neg_max <= v <= pos_max,
            None => !(signed_text(raw@) matches Some(v) && -neg_max <= v <= pos_max),
        },
{
    let d = chars_of(raw);
    if d.len() > 0 && d[0] == '-' {
        assert(d@.subrange(1, d@.len() as int) =~= d@.drop_first());
        match digits_at_most(&d, 1, neg_max) {
            Some(v) => Some(-(v as i128)),
            None => None,
        }
    } else {
        match parse_unsigned_at_most(raw, pos_max) {
            Some(v) => Some(v as i128),
            None => None,
        }
    }
}

// ---------------------------------------------------------------------------
// Settings
// ---------------------------------------------------------------------------

/// Parse a TCP port from a settings input, rejecting 0 and non-numeric values.
pub fn parse_ollama_port(raw: &str) -> (r: Option<u16>)
    ensures
        r == (match unsigned_text(raw@) {
            Some(v) => if 1 <= v <= 65535 {
                Some(v as u16)
            } else {
                None
            },
            None => None,
        }),
{
    match parse_unsigned_at_most(raw, 65535) {
        Some(v) => if v != 0 {
            Some(v as u16)
        } else {
            None
        },
        None => None,
    }
}

/// Parse Ollama `num_predict` from a settings input. `-1` is unlimited.
pub fn parse_ollama_num_predict(raw: &str) -> (r: Option<i32>)
    ensures
        r == (match signed_text(raw@) {
            Some(v) => if -1 <= v <= i32::MAX {
                Some(v as i32)
            } else {
                None
            },
            None => None,
        }),
{
    match parse_signed_within(raw, 2147483648, 2147483647) {
        Some(v) => if v >= -1 {
            Some(v as i32)
        } else {
            None
        },
        None => None,
    }
}

/// Parse a positive integer from a settings input.
pub fn parse_positive_u32(raw: &str) -> (r: Option<u32>)
    ensures
        r == (match unsigned_text(raw@) {
            Some(v) => if 1 <= v <= u32::MAX {
                Some(v as u32)
            } else {
                None
            },
            None => None,
        }),
{
    match parse_unsigned_at_most(raw, 4294967295) {
        Some(v) => if v != 0 {
            Some(v as u32)
        } else {
            None
        },
        None => None,
    }
}

/// Parse results-per-page from a settings input, rejecting 0 and non-numeric values.
pub fn parse_results_per_page(raw: &str) -> (r: Option<usize>)
    ensures
        r == (match unsigned_text(raw@) {
            Some(v) => if 1 <= v <= usize::MAX {
                Some(v as usize)
            } else {
                None
            },
            None => None,
        }),
{
    match parse_unsigned_at_most(raw, usize::MAX as u128) {
        Some(v) => if v != 0 {
            Some(v as usize)
        } else {
            None
        },
        None => None,
    }
}

/// The trimmed model name, when not empty.
pub open spec fn model_name_of(raw: Seq<char>) -> Option<Seq<char>> {
    if trim(raw).len() > 0 {
        Some(trim(raw))
    } else {
        None
    }
}

/// An optional string as an optional text.
pub open spec fn opt_text(r: Option<String>) -> Option<Seq<char>> {
    match r {
        Some(s) => Some(s@),
        None => None,
    }
}

/// Parse a non-empty Ollama model name.
pub fn parse_ollama_model(raw: &str) -> (r: Option<String>)
    ensures
        opt_text(r) == model_name_of(raw@),
{
    let t = trimmed_chars(raw);
    if t.len() > 0 {
        Some(string_of(&t))
    } else {
        None
    }
}

/// The trimmed API key, when no whitespace is left inside it (empty is allowed).
pub open spec fn api_key_of(raw: Seq<char>) -> Option<Seq<char>> {
    if forall|i: int| 0 <= i < trim(raw).len() ==> !is_ws(trim(raw)[i]) {
        Some(trim(raw))
    } else {
        None
    }
}

/// Parse a Gemini API key. Empty is allowed; whitespace inside the key is not.
pub fn parse_gemini_api_key(raw: &str) -> (r: Option<String>)
    ensures
        opt_text(r) == api_key_of(raw@),
{
    let t = trimmed_chars(raw);
    let mut i: usize = 0;
    while i < t.len()
        invariant
            i <= t@.len(),
            t@ == trim(raw@),
            forall|j: int| 0 <= j < i ==> !is_ws(t@[j]),
        decreases t@.len() - i,
    {
        if is_ws_exec(t[i]) {
            return None;
        }
        i = i + 1;
    }
    Some(string_of(&t))
}

/// Parse a Gemini model id for `/v1beta/models/{model}`. Reject empty values and `/`.
pub fn parse_gemini_model(raw: &str) -> (r: Option<String>)
    ensures
        opt_text(r) == (match model_name_of(raw@) {
            Some(m) => if has_char(m, '/') {
                None
            } else {
                Some(m)
            },
            None => None,
        }),
{
    let t = trimmed_chars(raw);
    if t.len() > 0 && !has_char_exec(&t, '/') {
        Some(string_of(&t))
    } else {
        None
    }
}

/// A float still being typed, such as `0.` or `1e-`.
pub open spec fn incomplete_float(raw: Seq<char>) -> bool {
    let t = trim(raw);
    ||| t.len() == 0
    ||| t == "-"@
    ||| t == "."@
    ||| t == "-."@
    ||| is_suffix("."@, t)
    ||| is_suffix("e"@, t)
    ||| is_suffix("E"@, t)
    ||| is_suffix("e-"@, t)
    ||| is_suffix("E-"@, t)
    ||| is_suffix("e+"@, t)
    ||| is_suffix("E+"@, t)
}

/// Return whether `raw` is a float still being typed, such as `0.` or `1e-`.
pub fn is_incomplete_float(raw: &str) -> (r: bool)
    ensures
        r == incomplete_float(raw@),
{
    let t = trimmed_chars(raw);
    t.len() == 0 || crate::hotkeys::text_is(&t, "-") || crate::hotkeys::text_is(&t, ".")
        || crate::hotkeys::text_is(&t, "-.") || ends_with_str(&t, ".") || ends_with_str(&t, "e")
        || ends_with_str(&t, "E") || ends_with_str(&t, "e-") || ends_with_str(&t, "E-")
        || ends_with_str(&t, "e+") || ends_with_str(&t, "E+")
}

/// Return the parsed value, or the invalid-setting toast text.
pub fn validate_setting<T, F: FnOnce(&str) -> Option<T>>(
    raw: &str,
    parse: F,
    label: &str,
    constraint: &str,
) -> (r: Result<T, String>)
    requires
        parse.requires((raw,)),
    ensures
        match r {
            Ok(v) => parse.ensures((raw,), Some(v)),
            Err(m) => parse.ensures((raw,), None) && m@ == invalid_setting_text(label@, constraint@),
        },
{
    match parse(raw) {
        Some(v) => Ok(v),
        None => Err(invalid_setting_toast(label, constraint)),
    }
}

// ---------------------------------------------------------------------------
// Laws
// ---------------------------------------------------------------------------

/// The digit character of `d` is a digit worth `d`.
proof fn lemma_digit_char(d: nat)
    requires
        d < 10,
    ensures
        is_digit(digit_char(d)),
        digit_value(digit_char(d)) == d,
{
}

/// The decimal text of `n` is all digits and worth `n`.
pub proof fn lemma_decimal_digits(n: nat)
    ensures
        all_digits(decimal(n)),
        digits_value(decimal(n)) == n,
    decreases n,
{
    lemma_digit_char(n % 10);
    if n < 10 {
        assert(decimal(n).drop_last() =~= Seq::<char>::empty());
        assert(digits_value(Seq::<char>::empty()) == 0);
        assert(digits_value(decimal(n)) == digits_value(decimal(n).drop_last()) * 10 + digit_value(decimal(n).last()));
    } else {
        lemma_decimal_digits(n / 10);
        let d = decimal(n / 10);
        assert(decimal(n).drop_last() =~= d);
        assert(decimal(n).last() == digit_char(n % 10));
        assert((n / 10) * 10 + n % 10 == n) by (nonlinear_arith);
        assert(digits_value(decimal(n)) == digits_value(d) * 10 + digit_value(decimal(n).last()));
        assert forall|i: int| 0 <= i < decimal(n).len() implies is_digit(decimal(n)[i]) by {
            if i < d.len() {
                assert(decimal(n)[i] == d[i]);
            }
        }
    }
}

/// Reading back the decimal text of a number gives the number: what the
/// settings form shows for a whole-number field parses to the same value.
pub proof fn lemma_unsigned_round_trip(n: nat)
    ensures
        unsigned_text(decimal(n)) == Some(n),
        signed_text(decimal(n)) == Some(n as int),
{
    lemma_decimal_digits(n);
    assert(is_digit(decimal(n)[0]));
}

} // verus!
