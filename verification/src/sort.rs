//! The order of `str` (by character code, shorter prefix first) and the
//! sorted listing of a finite set of strings, with an insertion sort proved
//! to produce it.

use vstd::prelude::*;
use crate::text::texts;

verus! {

/// `a` comes strictly before `b` in the order of `str`: compared character by
/// character by code point, a proper prefix first.
pub open spec fn str_lt(a: Seq<char>, b: Seq<char>) -> bool
    decreases a.len(),
{
    if a.len() == 0 {
        b.len() > 0
    } else if b.len() == 0 {
        false
    } else if a[0] != b[0] {
        a[0] < b[0]
    } else {
        str_lt(a.drop_first(), b.drop_first())
    }
}

/// Each element strictly before the next.
pub open spec fn strictly_sorted(s: Seq<Seq<char>>) -> bool {
    forall|i: int, j: int| 0 <= i < j < s.len() ==> str_lt(s[i], s[j])
}

/// The least element of a non-empty finite set.
pub open spec fn least(s: Set<Seq<char>>) -> Seq<char> {
    choose|x: Seq<char>| s.contains(x) && forall|y: Seq<char>| s.contains(y) && y != x ==> str_lt(x, y)
}

/// The elements of a finite set of strings in increasing order.
pub open spec fn sorted_set(s: Set<Seq<char>>) -> Seq<Seq<char>>
    decreases s.len(),
{
    if s.finite() && s.len() > 0 && s.contains(least(s)) {
        seq![least(s)] + sorted_set(s.remove(least(s)))
    } else {
        Seq::empty()
    }
}

// ---------------------------------------------------------------------------
// Properties of the order
// ---------------------------------------------------------------------------

/// No string is before itself.
pub proof fn lemma_lt_irreflexive(a: Seq<char>)
    ensures
        !str_lt(a, a),
    decreases a.len(),
{
    if a.len() > 0 {
        lemma_lt_irreflexive(a.drop_first());
    }
}

/// Two strings are not each before the other.
pub proof fn lemma_lt_asymmetric(a: Seq<char>, b: Seq<char>)
    ensures
        !(str_lt(a, b) && str_lt(b, a)),
    decreases a.len(),
{
    if a.len() > 0 && b.len() > 0 && a[0] == b[0] {
        lemma_lt_asymmetric(a.drop_first(), b.drop_first());
    }
}

/// The order is transitive.
pub proof fn lemma_lt_transitive(a: Seq<char>, b: Seq<char>, c: Seq<char>)
    requires
        str_lt(a, b),
        str_lt(b, c),
    ensures
        str_lt(a, c),
    decreases a.len(),
{
    if a.len() > 0 && b.len() > 0 && c.len() > 0 && a[0] == b[0] && b[0] == c[0] {
        lemma_lt_transitive(a.drop_first(), b.drop_first(), c.drop_first());
    }
}

/// Two different strings are ordered one way or the other.
pub proof fn lemma_lt_total(a: Seq<char>, b: Seq<char>)
    requires
        a != b,
    ensures
        str_lt(a, b) || str_lt(b, a),
    decreases a.len(),
{
    if a.len() == 0 {
        assert(b.len() > 0) by {
            if b.len() == 0 {
                assert(a =~= b);
            }
        }
    } else if b.len() == 0 {
    } else if a[0] != b[0] {
    } else {
        if a.drop_first() == b.drop_first() {
            assert(a =~= seq![a[0]] + a.drop_first());
            assert(b =~= seq![b[0]] + b.drop_first());
        }
        lemma_lt_total(a.drop_first(), b.drop_first());
    }
}

/// A strictly sorted listing of exactly the elements of a set is its sorted listing.
pub proof fn lemma_sorted_set_unique(v: Seq<Seq<char>>, s: Set<Seq<char>>)
    requires
        strictly_sorted(v),
        forall|x: Seq<char>| v.contains(x) <==> s.contains(x),
    ensures
        s.finite(),
        sorted_set(s) == v,
    decreases v.len(),
{
    assert(s =~= v.to_set());
    vstd::seq_lib::seq_to_set_is_finite(v);
    if v.len() == 0 {
        assert(s =~= Set::<Seq<char>>::empty());
    } else {
        let m = v[0];
        assert(s.contains(m));
        assert forall|y: Seq<char>| s.contains(y) && y != m implies str_lt(m, y) by {
            assert(v.contains(y));
            let j = choose|j: int| 0 <= j < v.len() && v[j] == y;
            assert(j != 0);
        }
        let l = least(s);
        assert(s.contains(l) && forall|y: Seq<char>| s.contains(y) && y != l ==> str_lt(l, y));
        if l != m {
            lemma_lt_asymmetric(l, m);
        }
        assert(l == m);
        let rest = v.drop_first();
        assert(strictly_sorted(rest)) by {
            assert forall|i: int, j: int| 0 <= i < j < rest.len() implies str_lt(rest[i], rest[j]) by {
                assert(rest[i] == v[i + 1] && rest[j] == v[j + 1]);
            }
        }
        assert forall|x: Seq<char>| rest.contains(x) <==> s.remove(m).contains(x) by {
            if rest.contains(x) {
                let j = choose|j: int| 0 <= j < rest.len() && rest[j] == x;
                assert(v[j + 1] == x);
                assert(str_lt(v[0], v[j + 1]));
                lemma_lt_irreflexive(x);
                assert(v.contains(x));
            }
            if s.remove(m).contains(x) {
                assert(v.contains(x));
                let j = choose|j: int| 0 <= j < v.len() && v[j] == x;
                assert(j != 0);
                assert(rest[j - 1] == x);
            }
        }
        vstd::set::axiom_set_remove_len(s, m);
        lemma_sorted_set_unique(rest, s.remove(m));
        assert(sorted_set(s) == seq![m] + rest);
        assert(seq![m] + rest =~= v);
    }
}

// ---------------------------------------------------------------------------
// Executable comparison and sorting
// ---------------------------------------------------------------------------

/// Whether `a` comes strictly before `b`.
pub fn str_lt_exec(a: &Vec<char>, b: &Vec<char>) -> (r: bool)
    ensures
        r == str_lt(a@, b@),
{
    let mut i: usize = 0;
    assert(a@.subrange(0, a@.len() as int) =~= a@);
    assert(b@.subrange(0, b@.len() as int) =~= b@);
    while i < a.len() && i < b.len() && a[i] == b[i]
        invariant
            i <= a@.len(),
            i <= b@.len(),
            str_lt(a@, b@) == str_lt(a@.subrange(i as int, a@.len() as int), b@.subrange(
                i as int,
                b@.len() as int,
            )),
        decreases a@.len() - i,
    {
        let ghost sa = a@.subrange(i as int, a@.len() as int);
        let ghost sb = b@.subrange(i as int, b@.len() as int);
        assert(sa.drop_first() =~= a@.subrange(i + 1, a@.len() as int));
        assert(sb.drop_first() =~= b@.subrange(i + 1, b@.len() as int));
        i = i + 1;
    }
    assert(a@.subrange(0, a@.len() as int) =~= a@);
    assert(b@.subrange(0, b@.len() as int) =~= b@);
    if i == a.len() {
        i < b.len()
    } else if i == b.len() {
        false
    } else {
        let ghost sa = a@.subrange(i as int, a@.len() as int);
        assert(sa[0] == a@[i as int]);
        a[i] < b[i]
    }
}

/// Whether two character vectors hold the same text.
pub fn same_text(a: &Vec<char>, b: &Vec<char>) -> (r: bool)
    ensures
        r == (a@ == b@),
{
    crate::path::chars_eq(a, b)
}

/// Whether `x` is among the texts of `v`.
pub fn contains_text(v: &Vec<Vec<char>>, x: &Vec<char>) -> (r: bool)
    ensures
        r == texts(v@).contains(x@),
{
    let mut i: usize = 0;
    while i < v.len()
        invariant
            i <= v@.len(),
            forall|j: int| 0 <= j < i ==> v@[j]@ != x@,
        decreases v@.len() - i,
    {
        if same_text(&v[i], x) {
            assert(texts(v@)[i as int] == x@);
            return true;
        }
        i = i + 1;
    }
    assert forall|j: int| 0 <= j < texts(v@).len() implies texts(v@)[j] != x@ by {
        assert(texts(v@)[j] == v@[j]@);
    }
    false
}

/// The texts of `v` in increasing order, when they are pairwise different.
pub fn sort_texts(v: Vec<Vec<char>>) -> (r: Vec<Vec<char>>)
    requires
        texts(v@).no_duplicates(),
    ensures
        strictly_sorted(texts(r@)),
        forall|x: Seq<char>| texts(r@).contains(x) <==> texts(v@).contains(x),
{
    let ghost orig = texts(v@);
    let mut src = v;
    let mut out: Vec<Vec<char>> = Vec::new();
    let mut k: usize = 0;
    let n = src.len();
    while src.len() > 0
        invariant
            n == orig.len(),
            k + src@.len() == orig.len(),
            orig.no_duplicates(),
            texts(src@) == orig.subrange(k as int, orig.len() as int),
            strictly_sorted(texts(out@)),
            forall|x: Seq<char>|
                texts(out@).contains(x) <==> orig.subrange(0, k as int).contains(x),
        decreases src@.len(),
    {
        let ghost old_src = src@;
        let x = src.remove(0);
        assert(texts(old_src)[0] == old_src[0]@);
        assert(x@ == orig[k as int]);
        assert(texts(src@) =~= orig.subrange(k + 1, orig.len() as int)) by {
            assert forall|j: int| 0 <= j < src@.len() implies texts(src@)[j] == orig[k + 1 + j] by {
                assert(src@[j] == old_src[j + 1]);
                assert(texts(old_src)[j + 1] == old_src[j + 1]@);
            }
        }
        // `x` differs from everything placed so far.
        assert(!texts(out@).contains(x@)) by {
            if texts(out@).contains(x@) {
                assert(orig.subrange(0, k as int).contains(x@));
                let j = choose|j: int| 0 <= j < k && orig.subrange(0, k as int)[j] == x@;
                assert(orig[j] == orig[k as int]);
            }
        }
        let mut p: usize = 0;
        while p < out.len() && !str_lt_exec(&x, &out[p])
            invariant
                p <= out@.len(),
                forall|j: int| 0 <= j < p ==> !str_lt(x@, #[trigger] out@[j]@),
            decreases out@.len() - p,
        {
            p = p + 1;
        }
        let ghost before = texts(out@);
        out.insert(p, x);
        assert(texts(out@) =~= before.insert(p as int, x@));
        assert forall|j: int| 0 <= j < p implies str_lt(before[j], x@) by {
            assert(before[j] == out@[j]@) by {
                assert(texts(out@)[j] == before[j]);
            }
            assert(before.contains(before[j]));
            if before[j] == x@ {
            }
            lemma_lt_total(before[j], x@);
        }
        assert forall|j: int| p <= j < before.len() implies str_lt(x@, before[j]) by {
            if p < before.len() {
                assert(str_lt(x@, before[p as int]));
                if j > p {
                    lemma_lt_transitive(x@, before[p as int], before[j]);
                }
            }
        }
        assert(strictly_sorted(texts(out@))) by {
            let t = texts(out@);
            assert forall|i: int, j: int| 0 <= i < j < t.len() implies str_lt(t[i], t[j]) by {
                if i < p && j < p {
                    assert(t[i] == before[i] && t[j] == before[j]);
                } else if i < p && j == p {
                } else if i < p {
                    assert(t[i] == before[i] && t[j] == before[j - 1]);
                    lemma_lt_transitive(before[i], x@, before[j - 1]);
                } else if i == p {
                    assert(t[j] == before[j - 1]);
                } else {
                    assert(t[i] == before[i - 1] && t[j] == before[j - 1]);
                }
            }
        }
        let ghost pre = orig.subrange(0, k as int);
        let ghost pre1 = orig.subrange(0, k + 1);
        assert forall|y: Seq<char>| texts(out@).contains(y) <==> pre1.contains(y) by {
            let t = texts(out@);
            if t.contains(y) {
                let j = choose|j: int| 0 <= j < t.len() && t[j] == y;
                if j < p {
                    assert(before.contains(y));
                } else if j > p {
                    assert(t[j] == before[j - 1]);
                    assert(before.contains(y));
                }
                if y != x@ {
                    assert(pre.contains(y));
                    let a = choose|a: int| 0 <= a < pre.len() && pre[a] == y;
                    assert(pre1[a] == y);
                } else {
                    assert(pre1[k as int] == y);
                }
            }
            if pre1.contains(y) {
                let a = choose|a: int| 0 <= a < pre1.len() && pre1[a] == y;
                if a < k {
                    assert(pre[a] == y);
                    assert(before.contains(y));
                    let j = choose|j: int| 0 <= j < before.len() && before[j] == y;
                    if j < p {
                        assert(t[j] == y);
                    } else {
                        assert(t[j + 1] == y);
                    }
                } else {
                    assert(t[p as int] == y);
                }
            }
        }
        k = k + 1;
    }
    assert(orig.subrange(0, orig.len() as int) =~= orig);
    out
}

/// Every text that `sorted_set` lists is in the set.
pub proof fn lemma_sorted_set_members(s: Set<Seq<char>>, j: int)
    requires
        0 <= j < sorted_set(s).len(),
    ensures
        s.contains(sorted_set(s)[j]),
    decreases s.len(),
{
    if s.finite() && s.len() > 0 && s.contains(least(s)) {
        if j > 0 {
            lemma_sorted_set_members(s.remove(least(s)), j - 1);
        }
    }
}

} // verus!
