//! Character-level helpers on strings, stated over `Seq<char>`.

use vstd::prelude::*;
use vstd::string::*;

verus! {

/// `suffix` is a suffix of `s`.
pub open spec fn has_suffix(s: Seq<char>, suffix: Seq<char>) -> bool {
    suffix.len() <= s.len() && s.subrange(s.len() - suffix.len(), s.len() as int) == suffix
}

/// `prefix` is a prefix of `s`.
pub open spec fn has_prefix(s: Seq<char>, prefix: Seq<char>) -> bool {
    prefix.len() <= s.len() && s.subrange(0, prefix.len() as int) == prefix
}

/// `needle` occurs in `s` as a contiguous run of characters.
pub open spec fn has_infix(s: Seq<char>, needle: Seq<char>) -> bool {
    exists|i: int| 0 <= i && i + needle.len() <= s.len() && #[trigger] s.subrange(i, i + needle.len()) == needle
}

/// The characters of a string, in order.
pub fn chars_of(s: &str) -> (v: Vec<char>)
    ensures
        v@ == s@,
{
    let n: usize = s.unicode_len();
    let mut v: Vec<char> = Vec::new();
    let mut i: usize = 0;
    while i < n
        invariant
            n == s@.len(),
            i <= n,
            v@ == s@.subrange(0, i as int),
        decreases n - i,
    {
        let c = s.get_char(i);
        v.push(c);
        i = i + 1;
    }
    v
}


/// Code-point lexicographic order on character sequences; this is the order in
/// which Rust compares `str` values (byte-wise UTF-8 order agrees with it).
pub open spec fn chars_le(a: Seq<char>, b: Seq<char>) -> bool
    decreases a.len(),
{
    if a.len() == 0 {
        true
    } else if b.len() == 0 {
        false
    } else if a[0] < b[0] {
        true
    } else if a[0] > b[0] {
        false
    } else {
        chars_le(a.drop_first(), b.drop_first())
    }
}

/// The lexicographic order is total.
pub proof fn lemma_chars_le_total(a: Seq<char>, b: Seq<char>)
    ensures
        chars_le(a, b) || chars_le(b, a),
    decreases a.len(),
{
    if a.len() > 0 && b.len() > 0 && a[0] == b[0] {
        lemma_chars_le_total(a.drop_first(), b.drop_first());
    }
}

/// The lexicographic order is transitive.
pub proof fn lemma_chars_le_transitive(a: Seq<char>, b: Seq<char>, c: Seq<char>)
    requires
        chars_le(a, b),
        chars_le(b, c),
    ensures
        chars_le(a, c),
    decreases a.len(),
{
    if a.len() > 0 && b.len() > 0 && c.len() > 0 && a[0] == b[0] && b[0] == c[0] {
        lemma_chars_le_transitive(a.drop_first(), b.drop_first(), c.drop_first());
    }
}

/// Whether `a` comes no later than `b` in code-point lexicographic order.
pub fn text_le(a: &str, b: &str) -> (r: bool)
    ensures
        r == chars_le(a@, b@),
{
    let va = chars_of(a);
    let vb = chars_of(b);
    let mut i: usize = 0;
    assert(a@.skip(0) =~= a@);
    assert(b@.skip(0) =~= b@);
    while i < va.len() && i < vb.len()
        invariant
            va@ == a@,
            vb@ == b@,
            i <= va.len(),
            i <= vb.len(),
            chars_le(a@, b@) == chars_le(a@.skip(i as int), b@.skip(i as int)),
        decreases va.len() - i,
    {
        let x = va[i];
        let y = vb[i];
        assert(a@.skip(i as int)[0] == x);
        assert(b@.skip(i as int)[0] == y);
        if x < y {
            return true;
        }
        if x > y {
            return false;
        }
        assert(a@.skip(i as int).drop_first() =~= a@.skip(i + 1));
        assert(b@.skip(i as int).drop_first() =~= b@.skip(i + 1));
        i = i + 1;
    }
    if i == va.len() {
        assert(a@.skip(i as int).len() == 0);
        true
    } else {
        assert(b@.skip(i as int).len() == 0);
        false
    }
}

/// Whether two strings hold the same characters.
pub fn text_eq(a: &str, b: &str) -> (r: bool)
    ensures
        r == (a@ == b@),
{
    let va = chars_of(a);
    let vb = chars_of(b);
    if va.len() != vb.len() {
        return false;
    }
    let mut i: usize = 0;
    while i < va.len()
        invariant
            va@ == a@,
            vb@ == b@,
            va.len() == vb.len(),
            i <= va.len(),
            forall|k: int| 0 <= k < i ==> va@[k] == vb@[k],
        decreases va.len() - i,
    {
        if va[i] != vb[i] {
            return false;
        }
        i = i + 1;
    }
    assert(va@ =~= vb@);
    true
}

/// Whether `s` ends with `suffix`.
pub fn ends_with(s: &str, suffix: &str) -> (r: bool)
    ensures
        r == has_suffix(s@, suffix@),
{
    let vs = chars_of(s);
    let vx = chars_of(suffix);
    if vx.len() > vs.len() {
        return false;
    }
    let off: usize = vs.len() - vx.len();
    let mut i: usize = 0;
    while i < vx.len()
        invariant
            vs@ == s@,
            vx@ == suffix@,
            off + vx.len() == vs.len(),
            i <= vx.len(),
            forall|k: int| 0 <= k < i ==> vs@[off + k] == vx@[k],
        decreases vx.len() - i,
    {
        if vs[off + i] != vx[i] {
            assert(s@.subrange(off as int, s@.len() as int)[i as int] != suffix@[i as int]);
            return false;
        }
        i = i + 1;
    }
    assert(s@.subrange(off as int, s@.len() as int) =~= suffix@);
    true
}

/// Whether `s` starts with `prefix`.
pub fn starts_with(s: &str, prefix: &str) -> (r: bool)
    ensures
        r == has_prefix(s@, prefix@),
{
    let vs = chars_of(s);
    let vx = chars_of(prefix);
    if vx.len() > vs.len() {
        return false;
    }
    let mut i: usize = 0;
    while i < vx.len()
        invariant
            vs@ == s@,
            vx@ == prefix@,
            vx.len() <= vs.len(),
            i <= vx.len(),
            forall|k: int| 0 <= k < i ==> vs@[k] == vx@[k],
        decreases vx.len() - i,
    {
        if vs[i] != vx[i] {
            assert(s@.subrange(0, prefix@.len() as int)[i as int] != prefix@[i as int]);
            return false;
        }
        i = i + 1;
    }
    assert(s@.subrange(0, prefix@.len() as int) =~= prefix@);
    true
}

/// Whether `needle` occurs in `vs` starting at position `start`.
fn occurs_at(vs: &Vec<char>, vn: &Vec<char>, start: usize) -> (r: bool)
    requires
        start + vn.len() <= vs.len(),
    ensures
        r == (vs@.subrange(start as int, start + vn@.len()) == vn@),
{
    let mut i: usize = 0;
    while i < vn.len()
        invariant
            start + vn.len() <= vs.len(),
            i <= vn.len(),
            forall|k: int| 0 <= k < i ==> vs@[start + k] == vn@[k],
        decreases vn.len() - i,
    {
        if vs[start + i] != vn[i] {
            assert(vs@.subrange(start as int, start + vn@.len())[i as int] != vn@[i as int]);
            return false;
        }
        i = i + 1;
    }
    assert(vs@.subrange(start as int, start + vn@.len()) =~= vn@);
    true
}

/// Whether `needle` occurs in `s`.
pub fn contains(s: &str, needle: &str) -> (r: bool)
    ensures
        r == has_infix(s@, needle@),
{
    let vs = chars_of(s);
    let vn = chars_of(needle);
    if vn.len() > vs.len() {
        return false;
    }
    let last: usize = vs.len() - vn.len();
    let mut start: usize = 0;
    loop
        invariant
            vs@ == s@,
            vn@ == needle@,
            last + vn.len() == vs.len(),
            start <= last,
            forall|j: int| 0 <= j < start ==> #[trigger] s@.subrange(j, j + needle@.len()) != needle@,
        ensures
            forall|j: int| 0 <= j <= last ==> #[trigger] s@.subrange(j, j + needle@.len()) != needle@,
        decreases last - start,
    {
        if occurs_at(&vs, &vn, start) {
            return true;
        }
        if start == last {
            break;
        }
        start = start + 1;
    }
    assert forall|j: int| 0 <= j && j + needle@.len() <= s@.len() implies #[trigger] s@.subrange(j, j + needle@.len()) != needle@ by {
        assert(j <= last);
    }
    false
}

/// Appends one character to a string (`String::push`).
#[verifier::external_body]
pub(crate) fn push_char(s: &mut String, c: char)
    ensures
        final(s)@ == old(s)@.push(c),
{
    s.push(c);
}

/// `t` is a suffix of `s` exactly when `s` is some text followed by `t`.
pub proof fn lemma_has_suffix_iff(s: Seq<char>, t: Seq<char>)
    ensures
        has_suffix(s, t) <==> exists|u: Seq<char>| s == #[trigger] (u + t),
{
    if has_suffix(s, t) {
        let u = s.subrange(0, s.len() - t.len());
        assert(s =~= u + t);
    }
    if exists|u: Seq<char>| s == #[trigger] (u + t) {
        let u = choose|u: Seq<char>| s == #[trigger] (u + t);
        assert(s.subrange(s.len() - t.len(), s.len() as int) =~= t);
    }
}

/// `t` is a prefix of `s` exactly when `s` is `t` followed by some text.
pub proof fn lemma_has_prefix_iff(s: Seq<char>, t: Seq<char>)
    ensures
        has_prefix(s, t) <==> exists|u: Seq<char>| s == #[trigger] (t + u),
{
    if has_prefix(s, t) {
        let u = s.subrange(t.len() as int, s.len() as int);
        assert(s =~= t + u);
    }
    if exists|u: Seq<char>| s == #[trigger] (t + u) {
        let u = choose|u: Seq<char>| s == #[trigger] (t + u);
        assert(s.subrange(0, t.len() as int) =~= t);
    }
}

/// `n` occurs in `s` exactly when `s` is some text, `n`, and some text.
pub proof fn lemma_has_infix_iff(s: Seq<char>, n: Seq<char>)
    ensures
        has_infix(s, n) <==> exists|u: Seq<char>, v: Seq<char>| s == #[trigger] (u + n + v),
{
    if has_infix(s, n) {
        let i = choose|i: int| 0 <= i && i + n.len() <= s.len() && #[trigger] s.subrange(i, i + n.len()) == n;
        let u = s.subrange(0, i);
        let v = s.subrange(i + n.len(), s.len() as int);
        assert(s =~= u + n + v);
    }
    if exists|u: Seq<char>, v: Seq<char>| s == #[trigger] (u + n + v) {
        let (u, v) = choose|u: Seq<char>, v: Seq<char>| s == #[trigger] (u + n + v);
        assert(s.subrange(u.len() as int, (u.len() + n.len()) as int) =~= n);
    }
}

/// A text comes no later than every text that it begins, and a text comes
/// after every shorter text that begins it.
pub proof fn lemma_chars_le_prefix(a: Seq<char>, b: Seq<char>)
    ensures
        has_prefix(b, a) ==> chars_le(a, b),
        has_prefix(b, a) && a.len() < b.len() ==> !chars_le(b, a),
    decreases a.len(),
{
    if has_prefix(b, a) && a.len() > 0 {
        assert(a[0] == b.subrange(0, a.len() as int)[0]);
        assert(b.drop_first().subrange(0, a.drop_first().len() as int) =~= a.drop_first()) by {
            assert forall|k: int| 0 <= k < a.len() - 1 implies b.drop_first()[k] == a.drop_first()[k] by {
                assert(b.subrange(0, a.len() as int)[k + 1] == a[k + 1]);
            }
        }
        lemma_chars_le_prefix(a.drop_first(), b.drop_first());
    }
}

/// Two texts that agree on their first `i` characters and differ at the
/// next one are ordered by that character.
pub proof fn lemma_chars_le_first_difference(a: Seq<char>, b: Seq<char>, i: int)
    requires
        0 <= i < a.len(),
        i < b.len(),
        a.take(i) == b.take(i),
        a[i] < b[i],
    ensures
        chars_le(a, b),
        !chars_le(b, a),
    decreases i,
{
    if i > 0 {
        assert(a[0] == a.take(i)[0]);
        assert(b[0] == b.take(i)[0]);
        assert(a.drop_first().take(i - 1) =~= b.drop_first().take(i - 1)) by {
            assert forall|k: int| 0 <= k < i - 1 implies a.drop_first()[k] == b.drop_first()[k] by {
                assert(a.take(i)[k + 1] == b.take(i)[k + 1]);
                assert(a.take(i)[k + 1] == a[k + 1]);
                assert(b.take(i)[k + 1] == b[k + 1]);
                assert(a.drop_first()[k] == a[k + 1]);
                assert(b.drop_first()[k] == b[k + 1]);
            }
        }
        lemma_chars_le_first_difference(a.drop_first(), b.drop_first(), i - 1);
    }
}

} // verus!
