use vstd::prelude::*;
use vstd::string::*;

verus! {

/// Compares two strings by their characters.
pub fn str_eq(a: &str, b: &str) -> (r: bool)
    ensures
        r == (a@ == b@),
{
    let x = String::from_str(a);
    let y = String::from_str(b);
    x == y
}

/// Whether `pat` occurs in `t` at position `i`.
pub open spec fn occurs_at(t: Seq<char>, i: int, pat: Seq<char>) -> bool {
    0 <= i && i + pat.len() <= t.len() && t.subrange(i, i + pat.len()) == pat
}

/// `t` with every occurrence of the non-empty `pat` replaced by `v`, matches
/// taken from left to right without overlap.
pub open spec fn substitute(t: Seq<char>, pat: Seq<char>, v: Seq<char>) -> Seq<char>
    decreases t.len(),
{
    if pat.len() == 0 || t.len() == 0 {
        t
    } else if occurs_at(t, 0, pat) {
        v + substitute(t.subrange(pat.len() as int, t.len() as int), pat, v)
    } else {
        seq![t[0]] + substitute(t.subrange(1, t.len() as int), pat, v)
    }
}

/// Whether `t` starts with `p`.
pub fn starts_with(t: &str, p: &str) -> (r: bool)
    ensures
        r == occurs_at(t@, 0, p@),
{
    matches_at(t, 0, p)
}

/// Whether `pat` occurs in `t` at character position `i`.
pub fn matches_at(t: &str, i: usize, pat: &str) -> (r: bool)
    requires
        i <= t@.len(),
    ensures
        r == occurs_at(t@, i as int, pat@),
{
    let n = t.unicode_len();
    let k = pat.unicode_len();
    if k > n - i {
        return false;
    }
    let mut j: usize = 0;
    while j < k
        invariant
            0 <= j <= k,
            n == t@.len(),
            k == pat@.len(),
            i + k <= n,
            forall|m: int| 0 <= m < j ==> t@[i + m] == pat@[m],
        decreases k - j,
    {
        if t.get_char(i + j) != pat.get_char(j) {
            assert(t@.subrange(i as int, i + k)[j as int] != pat@[j as int]);
            return false;
        }
        j = j + 1;
    }
    assert(t@.subrange(i as int, i + k) =~= pat@);
    true
}

/// Replaces every occurrence of the non-empty `pat` in `t` by `v`.
pub fn replace_all(t: &str, pat: &str, v: &str) -> (r: String)
    requires
        pat@.len() > 0,
    ensures
        r@ == substitute(t@, pat@, v@),
{
    let n = t.unicode_len();
    let k = pat.unicode_len();
    let mut out = String::new();
    let mut i: usize = 0;
    assert(t@.subrange(0, n as int) =~= t@);
    assert(out@ + substitute(t@, pat@, v@) =~= substitute(t@, pat@, v@));
    while i < n
        invariant
            0 <= i <= n,
            n == t@.len(),
            k == pat@.len(),
            k > 0,
            substitute(t@, pat@, v@) == out@ + substitute(t@.subrange(i as int, n as int), pat@, v@),
        decreases n - i,
    {
        let ghost rest = t@.subrange(i as int, n as int);
        if matches_at(t, i, pat) {
            assert(rest.subrange(0, k as int) =~= t@.subrange(i as int, i + k));
            assert(rest.subrange(k as int, rest.len() as int) =~= t@.subrange(i + k, n as int));
            out.append(v);
            i = i + k;
        } else {
            proof {
                if occurs_at(rest, 0, pat@) {
                    assert(rest.subrange(0, k as int) =~= t@.subrange(i as int, i + k));
                }
            }
            assert(rest.subrange(1, rest.len() as int) =~= t@.subrange(i + 1, n as int));
            let c = t.substring_char(i, i + 1);
            assert(c@ =~= seq![rest[0]]);
            out.append(c);
            i = i + 1;
        }
    }
    assert(t@.subrange(n as int, n as int) =~= Seq::<char>::empty());
    assert(out@ + Seq::<char>::empty() =~= out@);
    out
}

} // verus!
