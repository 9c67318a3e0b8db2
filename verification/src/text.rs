//! Character and string helpers used throughout the library: blankness,
//! case-insensitive comparison against ASCII patterns, suffix tests, and a
//! lexicographic order on strings together with sorted insertion.

use vstd::prelude::*;
use vstd::string::*;

verus! {

/// A whitespace character, in the sense of the Unicode `White_Space`
/// property (the set `str::trim` removes).
pub open spec fn is_space(c: char) -> bool {
    let u = c as u32;
    (0x9 <= u && u <= 0xd) || u == 0x20 || u == 0x85 || u == 0xa0 || u == 0x1680 || (0x2000 <= u
        && u <= 0x200a) || u == 0x2028 || u == 0x2029 || u == 0x202f || u == 0x205f || u == 0x3000
}

/// Exec test for [`is_space`].
pub fn char_is_space(c: char) -> (r: bool)
    ensures
        r == is_space(c),
{
    let u = c as u32;
    (0x9 <= u && u <= 0xd) || u == 0x20 || u == 0x85 || u == 0xa0 || u == 0x1680 || (0x2000 <= u
        && u <= 0x200a) || u == 0x2028 || u == 0x2029 || u == 0x202f || u == 0x205f || u == 0x3000
}

/// A string that is empty or consists of whitespace only, i.e. one that is
/// empty after trimming.
pub open spec fn is_blank(s: Seq<char>) -> bool {
    forall|i: int| 0 <= i < s.len() ==> is_space(#[trigger] s[i])
}

/// Whether `s` is blank: empty or whitespace only.
pub fn str_is_blank(s: &str) -> (r: bool)
    ensures
        r == is_blank(s@),
{
    let len = s.unicode_len();
    let mut i: usize = 0;
    while i < len
        invariant
            i <= len,
            len == s@.len(),
            forall|j: int| 0 <= j < i ==> is_space(#[trigger] s@[j]),
        decreases len - i,
    {
        if !char_is_space(s.get_char(i)) {
            return false;
        }
        i = i + 1;
    }
    true
}

/// The code point of `c` with an ASCII capital letter folded to lower case.
pub open spec fn fold_lower(c: char) -> int {
    if 0x41 <= c as u32 && c as u32 <= 0x5a {
        c as u32 + 0x20
    } else {
        c as u32 as int
    }
}

/// Two characters are equal up to ASCII case.
pub open spec fn eq_nocase(a: char, b: char) -> bool {
    fold_lower(a) == fold_lower(b)
}

/// Exec test for [`eq_nocase`].
pub fn char_eq_nocase(a: char, b: char) -> (r: bool)
    ensures
        r == eq_nocase(a, b),
{
    let ua = a as u32;
    let ub = b as u32;
    let fa = if 0x41 <= ua && ua <= 0x5a {
        ua + 0x20
    } else {
        ua
    };
    let fb = if 0x41 <= ub && ub <= 0x5a {
        ub + 0x20
    } else {
        ub
    };
    fa == fb
}

/// `s` ends with the suffix `suf`.
pub open spec fn ends_with(s: Seq<char>, suf: Seq<char>) -> bool {
    s.len() >= suf.len() && forall|j: int|
        0 <= j < suf.len() ==> s[s.len() - suf.len() + j] == #[trigger] suf[j]
}

/// `s` ends with the suffix `suf`, compared up to ASCII case.
pub open spec fn ends_with_nocase(s: Seq<char>, suf: Seq<char>) -> bool {
    s.len() >= suf.len() && forall|j: int|
        0 <= j < suf.len() ==> eq_nocase(s[s.len() - suf.len() + j], #[trigger] suf[j])
}

/// Whether `s` ends with `suf`, character for character.
pub fn str_ends_with(s: &str, suf: &str) -> (r: bool)
    ensures
        r == ends_with(s@, suf@),
{
    let slen = s.unicode_len();
    let flen = suf.unicode_len();
    if slen < flen {
        return false;
    }
    let mut j: usize = 0;
    while j < flen
        invariant
            j <= flen,
            slen == s@.len(),
            flen == suf@.len(),
            flen <= slen,
            forall|k: int| 0 <= k < j ==> s@[s@.len() - suf@.len() + k] == #[trigger] suf@[k],
        decreases flen - j,
    {
        if s.get_char(slen - flen + j) != suf.get_char(j) {
            return false;
        }
        j = j + 1;
    }
    true
}

/// Whether `s` ends with `suf`, compared up to ASCII case.
pub fn str_ends_with_nocase(s: &str, suf: &str) -> (r: bool)
    ensures
        r == ends_with_nocase(s@, suf@),
{
    let slen = s.unicode_len();
    let flen = suf.unicode_len();
    if slen < flen {
        return false;
    }
    let mut j: usize = 0;
    while j < flen
        invariant
            j <= flen,
            slen == s@.len(),
            flen == suf@.len(),
            flen <= slen,
            forall|k: int|
                0 <= k < j ==> eq_nocase(s@[s@.len() - suf@.len() + k], #[trigger] suf@[k]),
        decreases flen - j,
    {
        if !char_eq_nocase(s.get_char(slen - flen + j), suf.get_char(j)) {
            return false;
        }
        j = j + 1;
    }
    true
}

/// The pattern `pat` occurs in `s` starting at position `i`, compared up to
/// ASCII case.
pub open spec fn matches_at_nocase(s: Seq<char>, pat: Seq<char>, i: int) -> bool {
    0 <= i && i + pat.len() <= s.len() && forall|j: int|
        0 <= j < pat.len() ==> eq_nocase(s[i + j], #[trigger] pat[j])
}

/// The pattern `pat` occurs somewhere in `s`, compared up to ASCII case.
pub open spec fn contains_nocase(s: Seq<char>, pat: Seq<char>) -> bool {
    exists|i: int| matches_at_nocase(s, pat, i)
}

/// Whether `pat` occurs in `s`, compared up to ASCII case.
pub fn str_contains_nocase(s: &str, pat: &str) -> (r: bool)
    ensures
        r == contains_nocase(s@, pat@),
{
    let slen = s.unicode_len();
    let plen = pat.unicode_len();
    if plen > slen {
        return false;
    }
    let mut i: usize = 0;
    while i <= slen - plen
        invariant
            plen <= slen,
            slen == s@.len(),
            plen == pat@.len(),
            i <= slen - plen + 1,
            forall|i0: int| 0 <= i0 < i ==> !matches_at_nocase(s@, pat@, i0),
        decreases slen - plen + 1 - i,
    {
        let mut j: usize = 0;
        let mut hit = true;
        while j < plen
            invariant
                i + plen <= slen,
                slen == s@.len(),
                plen == pat@.len(),
                j <= plen,
                hit ==> forall|k: int| 0 <= k < j ==> eq_nocase(s@[i + k], #[trigger] pat@[k]),
                !hit ==> !matches_at_nocase(s@, pat@, i as int),
            decreases plen - j,
        {
            if !char_eq_nocase(s.get_char(i + j), pat.get_char(j)) {
                hit = false;
                j = plen;
            } else {
                j = j + 1;
            }
        }
        if hit {
            assert(matches_at_nocase(s@, pat@, i as int));
            return true;
        }
        i = i + 1;
    }
    assert(forall|i0: int| matches_at_nocase(s@, pat@, i0) ==> 0 <= i0 < slen - plen + 1);
    false
}

/// Lexicographic order on character sequences by code point, the order in
/// which the standard library sorts strings.
pub open spec fn lex_le(a: Seq<char>, b: Seq<char>) -> bool
    decreases a.len(),
{
    if a.len() == 0 {
        true
    } else if b.len() == 0 {
        false
    } else if (a[0] as u32) < (b[0] as u32) {
        true
    } else if (a[0] as u32) > (b[0] as u32) {
        false
    } else {
        lex_le(a.skip(1), b.skip(1))
    }
}

/// Strict lexicographic order.
pub open spec fn lex_lt(a: Seq<char>, b: Seq<char>) -> bool {
    lex_le(a, b) && a != b
}

/// Dropping a common prefix does not change how two sequences compare.
proof fn lemma_lex_le_common_prefix(a: Seq<char>, b: Seq<char>, i: int)
    requires
        0 <= i <= a.len(),
        i <= b.len(),
        forall|j: int| 0 <= j < i ==> a[j] == #[trigger] b[j],
    ensures
        lex_le(a, b) == lex_le(a.skip(i), b.skip(i)),
    decreases i,
{
    if i > 0 {
        assert(a.len() > 0 && b.len() > 0);
        assert(a[0] == b[0]);
        lemma_lex_le_common_prefix(a.skip(1), b.skip(1), i - 1);
        assert(a.skip(1).skip(i - 1) =~= a.skip(i));
        assert(b.skip(1).skip(i - 1) =~= b.skip(i));
    } else {
        assert(a.skip(0) =~= a);
        assert(b.skip(0) =~= b);
    }
}

/// The order is total: any two sequences compare one way or the other.
pub proof fn lemma_lex_total(a: Seq<char>, b: Seq<char>)
    ensures
        lex_le(a, b) || lex_le(b, a),
    decreases a.len(),
{
    if a.len() > 0 && b.len() > 0 {
        let c: char = a[0];
        let d: char = b[0];
        if !((c as u32) < (d as u32)) && !((c as u32) > (d as u32)) {
            assert(c == d) by {
                vstd::utf8::char_u32_cast(c, c as u32);
                vstd::utf8::char_u32_cast(d, d as u32);
            };
            lemma_lex_total(a.skip(1), b.skip(1));
        }
    }
}

/// The order is antisymmetric: sequences that compare both ways are equal.
pub proof fn lemma_lex_antisym(a: Seq<char>, b: Seq<char>)
    requires
        lex_le(a, b),
        lex_le(b, a),
    ensures
        a == b,
    decreases a.len(),
{
    if a.len() == 0 {
        assert(b.len() == 0);
        assert(a =~= b);
    } else {
        assert(b.len() > 0);
        let c: char = a[0];
        let d: char = b[0];
        assert(c as u32 == d as u32);
        assert(c == d) by {
            vstd::utf8::char_u32_cast(c, c as u32);
            vstd::utf8::char_u32_cast(d, d as u32);
        };
        lemma_lex_antisym(a.skip(1), b.skip(1));
        assert(a =~= seq![a[0]] + a.skip(1));
        assert(b =~= seq![b[0]] + b.skip(1));
    }
}

/// The order is transitive.
pub proof fn lemma_lex_trans(a: Seq<char>, b: Seq<char>, c: Seq<char>)
    requires
        lex_le(a, b),
        lex_le(b, c),
    ensures
        lex_le(a, c),
    decreases a.len(),
{
    if a.len() > 0 && b.len() > 0 && c.len() > 0 {
        let x: char = a[0];
        let y: char = b[0];
        let z: char = c[0];
        if x as u32 == y as u32 && y as u32 == z as u32 {
            assert(x == y && y == z) by {
                vstd::utf8::char_u32_cast(x, x as u32);
                vstd::utf8::char_u32_cast(y, y as u32);
                vstd::utf8::char_u32_cast(z, z as u32);
            };
            lemma_lex_trans(a.skip(1), b.skip(1), c.skip(1));
        }
    }
}

/// Whether `a` comes at or before `b` in lexicographic order.
pub fn str_lex_le(a: &str, b: &str) -> (r: bool)
    ensures
        r == lex_le(a@, b@),
{
    let alen = a.unicode_len();
    let blen = b.unicode_len();
    let mut i: usize = 0;
    loop
        invariant
            alen == a@.len(),
            blen == b@.len(),
            i <= alen,
            i <= blen,
            forall|j: int| 0 <= j < i ==> a@[j] == #[trigger] b@[j],
        decreases alen - i,
    {
        proof {
            lemma_lex_le_common_prefix(a@, b@, i as int);
        }
        if i >= alen {
            return true;
        }
        if i >= blen {
            return false;
        }
        let ca = a.get_char(i);
        let cb = b.get_char(i);
        proof {
            assert(a@.skip(i as int)[0] == a@[i as int]);
            assert(b@.skip(i as int)[0] == b@[i as int]);
        }
        if (ca as u32) < (cb as u32) {
            return true;
        }
        if (ca as u32) > (cb as u32) {
            return false;
        }
        assert(ca == cb) by {
            assert((ca as u32) == (cb as u32));
        }
        i = i + 1;
    }
}

/// The views of a sequence of strings.
pub open spec fn views(v: Seq<String>) -> Seq<Seq<char>> {
    v.map_values(|s: String| s@)
}

/// A strictly ascending (hence duplicate-free) sequence in lexicographic
/// order.
pub open spec fn strictly_sorted(vs: Seq<Seq<char>>) -> bool {
    forall|i: int, j: int| 0 <= i < j < vs.len() ==> lex_lt(#[trigger] vs[i], #[trigger] vs[j])
}

/// Insert `x` into the strictly sorted `v`, keeping it strictly sorted; a
/// string already present is not duplicated.
pub fn insert_sorted_unique(v: &mut Vec<String>, x: String)
    requires
        strictly_sorted(views(old(v)@)),
    ensures
        strictly_sorted(views(final(v)@)),
        forall|t: Seq<char>|
            views(final(v)@).contains(t) <==> (views(old(v)@).contains(t) || t == x@),
{
    let ghost oldv = v@;
    let mut p: usize = 0;
    loop
        invariant
            p <= v.len(),
            v@ == oldv,
            strictly_sorted(views(v@)),
            forall|j: int| 0 <= j < p ==> lex_lt(#[trigger] views(v@)[j], x@),
        ensures
            p <= v.len(),
            v@ == oldv,
            forall|j: int| 0 <= j < p ==> lex_lt(#[trigger] views(v@)[j], x@),
            p < v.len() ==> lex_le(x@, views(v@)[p as int]),
        decreases v.len() - p,
    {
        if p == v.len() {
            break ;
        }
        let le = str_lex_le(x.as_str(), v[p].as_str());
        if le {
            break ;
        }
        proof {
            lemma_lex_total(x@, v@[p as int]@);
            assert(lex_le(v@[p as int]@, x@));
            if v@[p as int]@ == x@ {
                assert(lex_le(x@, v@[p as int]@));
            }
            assert(lex_lt(views(v@)[p as int], x@));
        }
        p = p + 1;
    }
    if p < v.len() {
        let same = x.eq(&v[p]);
        if same {
            proof {
                assert(views(v@)[p as int] == x@);
                assert(views(v@).contains(x@));
            }
            return ;
        }
    }
    proof {
        if p < v.len() {
            assert(lex_lt(x@, views(v@)[p as int]));
        }
    }
    v.insert(p, x);
    proof {
        let pi = p as int;
        let vs = views(v@);
        let os = views(oldv);
        assert(vs =~= os.insert(pi, x@));
        assert forall|i: int, j: int| 0 <= i < j < vs.len() implies lex_lt(
            #[trigger] vs[i],
            #[trigger] vs[j],
        ) by {
            if j < pi {
                assert(vs[i] == os[i] && vs[j] == os[j]);
            } else if i < pi && j == pi {
                assert(vs[i] == os[i] && vs[j] == x@);
            } else if i < pi && j > pi {
                assert(vs[i] == os[i] && vs[j] == os[j - 1]);
                assert(i < j - 1);
            } else if i == pi {
                assert(vs[i] == x@ && vs[j] == os[j - 1]);
                assert(lex_lt(x@, os[pi]));
                if j - 1 > pi {
                    assert(lex_lt(os[pi], os[j - 1]));
                    lemma_lex_trans(x@, os[pi], os[j - 1]);
                    if x@ == os[j - 1] {
                        lemma_lex_antisym(os[pi], x@);
                    }
                }
            } else {
                assert(vs[i] == os[i - 1] && vs[j] == os[j - 1]);
            }
        }
        assert forall|t: Seq<char>|
            vs.contains(t) <==> (os.contains(t) || t == x@) by {
            if vs.contains(t) {
                let i = choose|i: int| 0 <= i < vs.len() && vs[i] == t;
                if i < pi {
                    assert(os[i] == t);
                    assert(os.contains(t));
                } else if i > pi {
                    assert(os[i - 1] == t);
                    assert(os.contains(t));
                }
            }
            if os.contains(t) {
                let i = choose|i: int| 0 <= i < os.len() && os[i] == t;
                if i < pi {
                    assert(vs[i] == t);
                } else {
                    assert(vs[i + 1] == t);
                }
                assert(vs.contains(t));
            }
            if t == x@ {
                assert(vs[pi] == t);
                assert(vs.contains(t));
            }
        }
    }
}

/// Two sequences are equal up to ASCII case.
pub open spec fn seq_eq_nocase(a: Seq<char>, b: Seq<char>) -> bool {
    a.len() == b.len() && forall|j: int| 0 <= j < a.len() ==> eq_nocase(a[j], #[trigger] b[j])
}

/// Whether two strings are equal up to ASCII case.
pub fn str_eq_nocase(a: &str, b: &str) -> (r: bool)
    ensures
        r == seq_eq_nocase(a@, b@),
{
    let alen = a.unicode_len();
    let blen = b.unicode_len();
    if alen != blen {
        return false;
    }
    let mut j: usize = 0;
    while j < alen
        invariant
            j <= alen,
            alen == a@.len(),
            alen == b@.len(),
            forall|k: int| 0 <= k < j ==> eq_nocase(a@[k], #[trigger] b@[k]),
        decreases alen - j,
    {
        if !char_eq_nocase(a.get_char(j), b.get_char(j)) {
            return false;
        }
        j = j + 1;
    }
    true
}

} // verus!

