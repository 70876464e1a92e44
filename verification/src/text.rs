//! Character-sequence vocabulary shared by the rest of the library: the
//! mathematical meaning of the `str` operations the notes frontend relies on
//! (prefixes, suffixes, search, trimming, replacement, line splitting, joining)
//! together with executable versions proved against that meaning.

use vstd::prelude::*;

verus! {

// ---------------------------------------------------------------------------
// Specifications
// ---------------------------------------------------------------------------

/// `p` is a prefix of `s`.
pub open spec fn is_prefix(p: Seq<char>, s: Seq<char>) -> bool {
    p.len() <= s.len() && s.subrange(0, p.len() as int) == p
}

/// `p` is a suffix of `s`.
pub open spec fn is_suffix(p: Seq<char>, s: Seq<char>) -> bool {
    p.len() <= s.len() && s.subrange(s.len() - p.len(), s.len() as int) == p
}

/// `p` occurs in `s` starting at index `i`.
pub open spec fn occurs_at(s: Seq<char>, p: Seq<char>, i: int) -> bool {
    0 <= i && i + p.len() <= s.len() && s.subrange(i, i + p.len()) == p
}

/// Index of the first occurrence of `p` in `s` at or after `from`, if any.
pub open spec fn find_from(s: Seq<char>, p: Seq<char>, from: int) -> Option<int>
    decreases s.len() + 1 - from,
{
    if from < 0 || from + p.len() > s.len() {
        None
    } else if occurs_at(s, p, from) {
        Some(from)
    } else {
        find_from(s, p, from + 1)
    }
}

/// Index of the first occurrence of `p` in `s`, if any (`str::find`).
pub open spec fn find(s: Seq<char>, p: Seq<char>) -> Option<int> {
    find_from(s, p, 0)
}

/// Index of the last character of `s` that is `a` or `b`, if any.
pub open spec fn last_of2(s: Seq<char>, a: char, b: char) -> Option<int>
    decreases s.len(),
{
    if s.len() == 0 {
        None
    } else if s.last() == a || s.last() == b {
        Some(s.len() - 1)
    } else {
        last_of2(s.drop_last(), a, b)
    }
}

/// Index of the last occurrence of character `c` in `s`, if any (`str::rfind`).
pub open spec fn last_of(s: Seq<char>, c: char) -> Option<int> {
    last_of2(s, c, c)
}

/// Index of the first occurrence of character `c` in `s`, if any.
pub open spec fn first_of(s: Seq<char>, c: char) -> Option<int> {
    find(s, seq![c])
}

/// Whether `c` is in `s`.
pub open spec fn has_char(s: Seq<char>, c: char) -> bool {
    exists|i: int| 0 <= i < s.len() && s[i] == c
}

/// The Unicode `White_Space` property, as used by `char::is_whitespace`.
pub open spec fn is_ws(c: char) -> bool {
    ||| '\u{9}' <= c <= '\u{d}'
    ||| c == ' '
    ||| c == '\u{85}'
    ||| c == '\u{a0}'
    ||| c == '\u{1680}'
    ||| '\u{2000}' <= c <= '\u{200a}'
    ||| c == '\u{2028}'
    ||| c == '\u{2029}'
    ||| c == '\u{202f}'
    ||| c == '\u{205f}'
    ||| c == '\u{3000}'
}

/// `s` without leading whitespace (`str::trim_start`).
pub open spec fn trim_start(s: Seq<char>) -> Seq<char>
    decreases s.len(),
{
    if s.len() > 0 && is_ws(s[0]) {
        trim_start(s.drop_first())
    } else {
        s
    }
}

/// `s` without trailing whitespace (`str::trim_end`).
pub open spec fn trim_end(s: Seq<char>) -> Seq<char>
    decreases s.len(),
{
    if s.len() > 0 && is_ws(s.last()) {
        trim_end(s.drop_last())
    } else {
        s
    }
}

/// `s` without leading and trailing whitespace (`str::trim`).
pub open spec fn trim(s: Seq<char>) -> Seq<char> {
    trim_end(trim_start(s))
}

/// Every non-overlapping occurrence of `p` in `s`, scanned left to right,
/// replaced by `r` (`str::replace`, for a non-empty pattern).
pub open spec fn replace_all(s: Seq<char>, p: Seq<char>, r: Seq<char>) -> Seq<char>
    decreases s.len(),
{
    if p.len() == 0 {
        s
    } else {
        proof {
            lemma_find_from(s, p, 0);
        }
        match find(s, p) {
            Some(i) => s.subrange(0, i) + r + replace_all(
                s.subrange(i + p.len(), s.len() as int),
                p,
                r,
            ),
            None => s,
        }
    }
}

/// `s` with its prefix `p` removed, when `s` starts with `p` (`str::strip_prefix`).
pub open spec fn strip_prefix(s: Seq<char>, p: Seq<char>) -> Option<Seq<char>> {
    if is_prefix(p, s) {
        Some(s.subrange(p.len() as int, s.len() as int))
    } else {
        None
    }
}

/// `s` with its suffix `p` removed, when `s` ends with `p` (`str::strip_suffix`).
pub open spec fn strip_suffix(s: Seq<char>, p: Seq<char>) -> Option<Seq<char>> {
    if is_suffix(p, s) {
        Some(s.subrange(0, s.len() - p.len()))
    } else {
        None
    }
}

/// One line as `str::lines` yields it: a line ended by `\n` loses one trailing `\r`.
pub open spec fn strip_cr(line: Seq<char>) -> Seq<char> {
    if line.len() > 0 && line.last() == '\r' {
        line.drop_last()
    } else {
        line
    }
}

/// The lines of `s` (`str::lines`): split at `\n`, a `\r` before the `\n` dropped,
/// and no empty last line after a final line ending.
pub open spec fn lines(s: Seq<char>) -> Seq<Seq<char>>
    decreases s.len(),
{
    if s.len() == 0 {
        Seq::empty()
    } else {
        proof {
            lemma_find_from(s, seq!['\n'], 0);
        }
        match first_of(s, '\n') {
            Some(i) => seq![strip_cr(s.subrange(0, i))] + lines(
                s.subrange(i + 1, s.len() as int),
            ),
            None => seq![s],
        }
    }
}

/// The elements of `parts` separated by `sep` (`[..].join(sep)`).
pub open spec fn join(parts: Seq<Seq<char>>, sep: Seq<char>) -> Seq<char>
    decreases parts.len(),
{
    if parts.len() == 0 {
        Seq::empty()
    } else if parts.len() == 1 {
        parts[0]
    } else {
        join(parts.drop_last(), sep) + sep + parts.last()
    }
}

/// The character sequences held by a vector of character vectors.
pub open spec fn texts(v: Seq<Vec<char>>) -> Seq<Seq<char>> {
    Seq::new(v.len(), |i: int| v[i]@)
}

/// The decimal digit character for `d < 10`.
pub open spec fn digit_char(d: nat) -> char {
    if d == 0 {
        '0'
    } else if d == 1 {
        '1'
    } else if d == 2 {
        '2'
    } else if d == 3 {
        '3'
    } else if d == 4 {
        '4'
    } else if d == 5 {
        '5'
    } else if d == 6 {
        '6'
    } else if d == 7 {
        '7'
    } else if d == 8 {
        '8'
    } else {
        '9'
    }
}

/// The decimal text of `n`, as integer `Display` writes it.
pub open spec fn decimal(n: nat) -> Seq<char>
    decreases n,
{
    if n < 10 {
        seq![digit_char(n)]
    } else {
        decimal(n / 10).push(digit_char(n % 10))
    }
}

/// What `find_from` returns: the first occurrence at or after `from`.
pub proof fn lemma_find_from(s: Seq<char>, p: Seq<char>, from: int)
    requires
        from >= 0,
    ensures
        find_from(s, p, from) matches Some(i) ==> from <= i && occurs_at(s, p, i) && forall|
            j: int,
        | from <= j < i ==> !occurs_at(s, p, j),
        find_from(s, p, from) is None ==> forall|j: int| from <= j ==> !occurs_at(s, p, j),
    decreases s.len() + 1 - from,
{
    if from + p.len() > s.len() {
    } else if occurs_at(s, p, from) {
    } else {
        lemma_find_from(s, p, from + 1);
    }
}

/// Each `a` in `s` turned into `b`.
pub open spec fn map_char(s: Seq<char>, a: char, b: char) -> Seq<char> {
    s.map_values(|c: char| if c == a { b } else { c })
}

/// Replacing a single character is mapping it.
pub proof fn lemma_replace_char(s: Seq<char>, a: char, b: char)
    ensures
        replace_all(s, seq![a], seq![b]) == map_char(s, a, b),
    decreases s.len(),
{
    lemma_find_from(s, seq![a], 0);
    match find(s, seq![a]) {
        Some(i) => {
            let rest = s.subrange(i + 1, s.len() as int);
            lemma_replace_char(rest, a, b);
            assert(s.subrange(i, i + 1) == seq![a]);
            assert forall|j: int| 0 <= j < i implies s[j] != a by {
                assert(!occurs_at(s, seq![a], j));
                if s[j] == a {
                    assert(s.subrange(j, j + 1) =~= seq![a]);
                }
            }
            assert(s[i] == s.subrange(i, i + 1)[0]);
            let lhs = s.subrange(0, i) + seq![b] + map_char(rest, a, b);
            assert forall|j: int| 0 <= j < s.len() implies lhs[j] == map_char(s, a, b)[j] by {
                if j > i {
                    assert(rest[j - i - 1] == s[j]);
                }
            }
            assert(lhs =~= map_char(s, a, b));
        },
        None => {
            assert forall|j: int| 0 <= j < s.len() implies s[j] != a by {
                assert(!occurs_at(s, seq![a], j));
                if s[j] == a {
                    assert(s.subrange(j, j + 1) =~= seq![a]);
                }
            }
            assert(s =~= map_char(s, a, b));
        },
    }
}

/// The trimmed text neither starts nor ends with whitespace, and is a slice of the input.
pub proof fn lemma_trim_ends(s: Seq<char>)
    ensures
        trim(s).len() > 0 ==> !is_ws(trim(s)[0]) && !is_ws(trim(s).last()),
{
    lemma_trim_start_first(s);
    lemma_trim_end_props(trim_start(s));
}

/// `trim_start` leaves no leading whitespace.
pub proof fn lemma_trim_start_first(s: Seq<char>)
    ensures
        trim_start(s).len() > 0 ==> !is_ws(trim_start(s)[0]),
    decreases s.len(),
{
    if s.len() > 0 && is_ws(s[0]) {
        lemma_trim_start_first(s.drop_first());
    }
}

/// `trim_end` keeps a prefix and leaves no trailing whitespace.
pub proof fn lemma_trim_end_props(s: Seq<char>)
    ensures
        trim_end(s).len() <= s.len(),
        trim_end(s) == s.subrange(0, trim_end(s).len() as int),
        trim_end(s).len() > 0 ==> !is_ws(trim_end(s).last()),
    decreases s.len(),
{
    if s.len() > 0 && is_ws(s.last()) {
        lemma_trim_end_props(s.drop_last());
        assert(s.drop_last().subrange(0, trim_end(s).len() as int) =~= s.subrange(
            0,
            trim_end(s).len() as int,
        ));
    } else {
        assert(s.subrange(0, s.len() as int) =~= s);
    }
}

/// Text that neither starts nor ends with whitespace is its own trim.
pub proof fn lemma_trim_fixed(s: Seq<char>)
    requires
        s.len() > 0 ==> !is_ws(s[0]) && !is_ws(s.last()),
    ensures
        trim(s) == s,
{
}

/// What a sequence holds after a push.
pub proof fn lemma_push_contains<T>(s: Seq<T>, v: T, x: T)
    ensures
        s.push(v).contains(x) <==> (s.contains(x) || x == v),
{
    if s.push(v).contains(x) {
        let j = choose|j: int| 0 <= j < s.push(v).len() && s.push(v)[j] == x;
        if j < s.len() {
            assert(s[j] == x);
        }
    }
    if s.contains(x) {
        let j = choose|j: int| 0 <= j < s.len() && s[j] == x;
        assert(s.push(v)[j] == x);
    }
    if x == v {
        assert(s.push(v)[s.len() as int] == x);
    }
}

// ---------------------------------------------------------------------------
// Conversions between `str`/`String` and character vectors
// ---------------------------------------------------------------------------

/// The characters of `s`, in order.
pub fn chars_of(s: &str) -> (r: Vec<char>)
    ensures
        r@ == s@,
{
    let mut out: Vec<char> = Vec::new();
    for c in it: s.chars()
        invariant
            out@ == it.seq().take(it.index() as int),
            it.seq() == s@,
    {
        out.push(c);
    }
    out
}

/// `String` collected from the characters `v` (`FromIterator<char> for String`):
/// the string holds exactly those characters, in order.
#[verifier::external_body]
pub(crate) fn string_of(v: &Vec<char>) -> (r: String)
    ensures
        r@ == v@,
{
    v.iter().collect()
}

// ---------------------------------------------------------------------------
// Executable operations on character vectors
// ---------------------------------------------------------------------------

/// Append all of `src` to `dst`.
pub fn push_all(dst: &mut Vec<char>, src: &Vec<char>)
    ensures
        final(dst)@ == old(dst)@ + src@,
{
    let mut i: usize = 0;
    while i < src.len()
        invariant
            i <= src@.len(),
            dst@ == old(dst)@ + src@.subrange(0, i as int),
        decreases src@.len() - i,
    {
        dst.push(src[i]);
        i = i + 1;
        assert(src@.subrange(0, i as int) == src@.subrange(0, i - 1).push(src@[i - 1]));
    }
    assert(src@.subrange(0, src@.len() as int) == src@);
}

/// Append the characters of `s` to `dst`.
pub fn push_str(dst: &mut Vec<char>, s: &str)
    ensures
        final(dst)@ == old(dst)@ + s@,
{
    let v = chars_of(s);
    push_all(dst, &v);
}

/// The characters `v[from..to]`.
pub fn slice_of(v: &Vec<char>, from: usize, to: usize) -> (r: Vec<char>)
    requires
        from <= to <= v@.len(),
    ensures
        r@ == v@.subrange(from as int, to as int),
{
    let mut out: Vec<char> = Vec::new();
    let mut i = from;
    while i < to
        invariant
            from <= i <= to <= v@.len(),
            out@ == v@.subrange(from as int, i as int),
        decreases to - i,
    {
        out.push(v[i]);
        i = i + 1;
        assert(v@.subrange(from as int, i as int) == v@.subrange(from as int, i - 1).push(
            v@[i - 1],
        ));
    }
    out
}

/// Whether `p` occurs in `v` at index `i`.
pub fn matches_at(v: &Vec<char>, p: &Vec<char>, i: usize) -> (r: bool)
    ensures
        r == occurs_at(v@, p@, i as int),
{
    if i > v.len() || p.len() > v.len() - i {
        return false;
    }
    let n = v.len();
    let mut k: usize = 0;
    while k < p.len()
        invariant
            n == v@.len(),
            i + p@.len() <= v@.len(),
            k <= p@.len(),
            forall|j: int| 0 <= j < k ==> v@[i + j] == p@[j],
        decreases p@.len() - k,
    {
        if v[i + k] != p[k] {
            assert(v@.subrange(i as int, i + p@.len())[k as int] != p@[k as int]);
            return false;
        }
        k = k + 1;
    }
    assert(v@.subrange(i as int, i + p@.len()) =~= p@);
    true
}

/// Whether `v` starts with `p` (`str::starts_with`).
pub fn starts_with(v: &Vec<char>, p: &Vec<char>) -> (r: bool)
    ensures
        r == is_prefix(p@, v@),
{
    matches_at(v, p, 0)
}

/// Whether `v` ends with `p` (`str::ends_with`).
pub fn ends_with(v: &Vec<char>, p: &Vec<char>) -> (r: bool)
    ensures
        r == is_suffix(p@, v@),
{
    if p.len() > v.len() {
        return false;
    }
    matches_at(v, p, v.len() - p.len())
}

/// Whether `v` starts with the characters of `p`.
pub fn starts_with_str(v: &Vec<char>, p: &str) -> (r: bool)
    ensures
        r == is_prefix(p@, v@),
{
    let pv = chars_of(p);
    starts_with(v, &pv)
}

/// Whether `v` ends with the characters of `p`.
pub fn ends_with_str(v: &Vec<char>, p: &str) -> (r: bool)
    ensures
        r == is_suffix(p@, v@),
{
    let pv = chars_of(p);
    ends_with(v, &pv)
}

/// The first occurrence of `p` in `v` at or after `from`.
pub fn find_from_exec(v: &Vec<char>, p: &Vec<char>, from: usize) -> (r: Option<usize>)
    ensures
        match r {
            Some(i) => find_from(v@, p@, from as int) == Some(i as int),
            None => find_from(v@, p@, from as int) is None,
        },
        r matches Some(i) ==> from <= i && i + p@.len() <= v@.len() && occurs_at(v@, p@, i as int),
{
    proof {
        lemma_find_from(v@, p@, from as int);
    }
    if p.len() > v.len() || from > v.len() - p.len() {
        return None;
    }
    if p.len() == 0 {
        assert(v@.subrange(from as int, from as int) == p@);
        return Some(from);
    }
    let n = v.len();
    let last = n - p.len();
    let mut i = from;
    while i <= last
        invariant
            n == v@.len(),
            p@.len() > 0,
            last + p@.len() == v@.len(),
            from <= i <= last + 1,
            find_from(v@, p@, from as int) == find_from(v@, p@, i as int),
        decreases last + 1 - i,
    {
        if matches_at(v, p, i) {
            return Some(i);
        }
        i = i + 1;
    }
    None
}

/// The first occurrence of `p` in `v` (`str::find`).
pub fn find_exec(v: &Vec<char>, p: &Vec<char>) -> (r: Option<usize>)
    ensures
        match r {
            Some(i) => find(v@, p@) == Some(i as int),
            None => find(v@, p@) is None,
        },
        r matches Some(i) ==> i + p@.len() <= v@.len() && occurs_at(v@, p@, i as int),
{
    find_from_exec(v, p, 0)
}

/// The first occurrence of character `c` in `v`.
pub fn first_of_exec(v: &Vec<char>, c: char) -> (r: Option<usize>)
    ensures
        match r {
            Some(i) => first_of(v@, c) == Some(i as int),
            None => first_of(v@, c) is None,
        },
        r matches Some(i) ==> i < v@.len() && v@[i as int] == c,
{
    let mut p: Vec<char> = Vec::new();
    p.push(c);
    assert(p@ == seq![c]);
    let r = find_exec(v, &p);
    proof {
        if let Some(i) = r {
            assert(v@.subrange(i as int, i + 1) == p@);
            assert(v@[i as int] == v@.subrange(i as int, i + 1)[0]);
        }
    }
    r
}

/// The last character of `v` equal to `a` or `b`.
pub fn last_of2_exec(v: &Vec<char>, a: char, b: char) -> (r: Option<usize>)
    ensures
        match r {
            Some(i) => last_of2(v@, a, b) == Some(i as int),
            None => last_of2(v@, a, b) is None,
        },
        r matches Some(i) ==> i < v@.len(),
{
    let mut n = v.len();
    assert(v@.subrange(0, n as int) == v@);
    while n > 0
        invariant
            n <= v@.len(),
            last_of2(v@, a, b) == last_of2(v@.subrange(0, n as int), a, b),
        decreases n,
    {
        if v[n - 1] == a || v[n - 1] == b {
            return Some(n - 1);
        }
        assert(v@.subrange(0, n as int).drop_last() == v@.subrange(0, n - 1));
        n = n - 1;
    }
    None
}

/// Whether `c` is in `v`.
pub fn has_char_exec(v: &Vec<char>, c: char) -> (r: bool)
    ensures
        r == has_char(v@, c),
{
    let mut i: usize = 0;
    while i < v.len()
        invariant
            i <= v@.len(),
            forall|j: int| 0 <= j < i ==> v@[j] != c,
        decreases v@.len() - i,
    {
        if v[i] == c {
            return true;
        }
        i = i + 1;
    }
    false
}

/// Whether `c` has the Unicode `White_Space` property (`char::is_whitespace`).
pub fn is_ws_exec(c: char) -> (r: bool)
    ensures
        r == is_ws(c),
{
    ('\u{9}' <= c && c <= '\u{d}') || c == ' ' || c == '\u{85}' || c == '\u{a0}' || c
        == '\u{1680}' || ('\u{2000}' <= c && c <= '\u{200a}') || c == '\u{2028}' || c
        == '\u{2029}' || c == '\u{202f}' || c == '\u{205f}' || c == '\u{3000}'
}

/// Bounds `(a, b)` with `v[a..b]` the trimmed text of `v`.
pub fn trim_bounds(v: &Vec<char>) -> (r: (usize, usize))
    ensures
        r.0 <= r.1 <= v@.len(),
        v@.subrange(r.0 as int, r.1 as int) == trim(v@),
        trim_start(v@) == v@.subrange(r.0 as int, v@.len() as int),
{
    let mut a: usize = 0;
    assert(v@.subrange(0, v@.len() as int) == v@);
    while a < v.len() && is_ws_exec(v[a])
        invariant
            a <= v@.len(),
            trim_start(v@) == trim_start(v@.subrange(a as int, v@.len() as int)),
        decreases v@.len() - a,
    {
        assert(v@.subrange(a as int, v@.len() as int).drop_first() == v@.subrange(
            a + 1,
            v@.len() as int,
        ));
        a = a + 1;
    }
    let mut b: usize = v.len();
    let ghost start = v@.subrange(a as int, v@.len() as int);
    assert(trim_start(start) == start);
    assert(trim_start(v@) == start);
    while b > a && is_ws_exec(v[b - 1])
        invariant
            a <= b <= v@.len(),
            start == v@.subrange(a as int, v@.len() as int),
            trim_end(start) == trim_end(v@.subrange(a as int, b as int)),
        decreases b,
    {
        assert(v@.subrange(a as int, b as int).drop_last() == v@.subrange(a as int, b - 1));
        b = b - 1;
    }
    (a, b)
}

/// `v` without leading and trailing whitespace (`str::trim`).
pub fn trim_exec(v: &Vec<char>) -> (r: Vec<char>)
    ensures
        r@ == trim(v@),
{
    let (a, b) = trim_bounds(v);
    slice_of(v, a, b)
}

/// `s` without leading and trailing whitespace, as characters.
pub fn trimmed_chars(s: &str) -> (r: Vec<char>)
    ensures
        r@ == trim(s@),
{
    let v = chars_of(s);
    trim_exec(&v)
}

/// Every occurrence of `p` in `v` replaced by `r` (`str::replace`).
pub fn replace_all_exec(v: &Vec<char>, p: &Vec<char>, r: &Vec<char>) -> (out: Vec<char>)
    requires
        p@.len() > 0,
    ensures
        out@ == replace_all(v@, p@, r@),
{
    let mut out: Vec<char> = Vec::new();
    let mut pos: usize = 0;
    assert(v@.subrange(0, v@.len() as int) == v@);
    loop
        invariant
            p@.len() > 0,
            pos <= v@.len(),
            replace_all(v@, p@, r@) == out@ + replace_all(
                v@.subrange(pos as int, v@.len() as int),
                p@,
                r@,
            ),
        decreases v@.len() - pos,
    {
        let ghost rest = v@.subrange(pos as int, v@.len() as int);
        let tail = slice_of(v, pos, v.len());
        match find_exec(&tail, p) {
            Some(i) => {
                let head = slice_of(&tail, 0, i);
                let ghost before = out@;
                push_all(&mut out, &head);
                push_all(&mut out, r);
                assert(tail@.subrange(i + p@.len(), tail@.len() as int) == v@.subrange(
                    pos + i + p@.len(),
                    v@.len() as int,
                ));
                assert(replace_all(rest, p@, r@) == head@ + r@ + replace_all(
                    tail@.subrange(i + p@.len(), tail@.len() as int),
                    p@,
                    r@,
                ));
                assert(out@ == before + head@ + r@);
                pos = pos + i + p.len();
            },
            None => {
                push_all(&mut out, &tail);
                return out;
            },
        }
    }
}

/// The lines of `v` (`str::lines`).
pub fn lines_exec(v: &Vec<char>) -> (r: Vec<Vec<char>>)
    ensures
        texts(r@) == lines(v@),
{
    let mut out: Vec<Vec<char>> = Vec::new();
    let mut rest = slice_of(v, 0, v.len());
    assert(rest@ == v@);
    assert(texts(out@) =~= Seq::<Seq<char>>::empty());
    while rest.len() > 0
        invariant
            lines(v@) == texts(out@) + lines(rest@),
        decreases rest@.len(),
    {
        match first_of_exec(&rest, '\n') {
            Some(i) => {
                let mut line = slice_of(&rest, 0, i);
                if line.len() > 0 && line[line.len() - 1] == '\r' {
                    line.pop();
                }
                let next = slice_of(&rest, i + 1, rest.len());
                let ghost before = texts(out@);
                out.push(line);
                assert(texts(out@) =~= before.push(line@));
                assert(lines(rest@) == seq![line@] + lines(next@));
                assert(before.push(line@) + lines(next@) =~= before + (seq![line@] + lines(
                    next@,
                )));
                rest = next;
            },
            None => {
                let ghost before = texts(out@);
                let line = slice_of(&rest, 0, rest.len());
                assert(line@ == rest@);
                out.push(line);
                assert(texts(out@) =~= before.push(rest@));
                assert(lines(rest@) == seq![rest@]);
                assert(before.push(rest@) =~= before + seq![rest@]);
                return out;
            },
        }
    }
    assert(lines(rest@) == Seq::<Seq<char>>::empty());
    assert(texts(out@) + Seq::<Seq<char>>::empty() =~= texts(out@));
    out
}

/// The elements of `parts` separated by `sep` (`[..].join(sep)`).
pub fn join_exec(parts: &Vec<Vec<char>>, sep: &Vec<char>) -> (r: Vec<char>)
    ensures
        r@ == join(texts(parts@), sep@),
{
    let mut out: Vec<char> = Vec::new();
    let mut i: usize = 0;
    assert(texts(parts@).subrange(0, 0) =~= Seq::<Seq<char>>::empty());
    while i < parts.len()
        invariant
            i <= parts@.len(),
            out@ == join(texts(parts@).subrange(0, i as int), sep@),
        decreases parts@.len() - i,
    {
        let ghost prefix = texts(parts@).subrange(0, i as int);
        let ghost next = texts(parts@).subrange(0, i + 1);
        assert(next.drop_last() =~= prefix);
        assert(next.last() == parts@[i as int]@);
        if i > 0 {
            push_all(&mut out, sep);
        }
        push_all(&mut out, &parts[i]);
        proof {
            if i == 0 {
                assert(out@ == next[0]);
            }
        }
        i = i + 1;
    }
    assert(texts(parts@).subrange(0, parts@.len() as int) =~= texts(parts@));
    out
}

/// The digit character for `d < 10`.
pub fn digit_exec(d: usize) -> (c: char)
    requires
        d < 10,
    ensures
        c == digit_char(d as nat),
{
    if d == 0 {
        '0'
    } else if d == 1 {
        '1'
    } else if d == 2 {
        '2'
    } else if d == 3 {
        '3'
    } else if d == 4 {
        '4'
    } else if d == 5 {
        '5'
    } else if d == 6 {
        '6'
    } else if d == 7 {
        '7'
    } else if d == 8 {
        '8'
    } else {
        '9'
    }
}

/// The decimal text of `n` (`usize` `Display`).
pub fn decimal_exec(n: usize) -> (r: Vec<char>)
    ensures
        r@ == decimal(n as nat),
    decreases n,
{
    let c = digit_exec(n % 10);
    if n < 10 {
        let mut out: Vec<char> = Vec::new();
        out.push(c);
        out
    } else {
        let mut out = decimal_exec(n / 10);
        out.push(c);
        out
    }
}

/// The decimal text of `n` (`u64` `Display`).
pub fn decimal_u64_exec(n: u64) -> (r: Vec<char>)
    ensures
        r@ == decimal(n as nat),
    decreases n,
{
    let c = digit_exec((n % 10) as usize);
    if n < 10 {
        let mut out: Vec<char> = Vec::new();
        out.push(c);
        out
    } else {
        let mut out = decimal_u64_exec(n / 10);
        out.push(c);
        out
    }
}

} // verus!
