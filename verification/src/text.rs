//! Small string helpers shared by the other modules: equality, substring
//! search, decimal numbers, path joining and picking the first existing
//! path, all on the character view of strings.

use vstd::prelude::*;
use vstd::string::StrSliceExecFns;
use vstd::string::StringExecFns;

verus! {

/// Appends one character (`String::push`).
#[verifier::external_body]
pub(crate) fn push_char(s: &mut String, c: char)
    ensures
        final(s)@ == old(s)@.push(c),
{
    s.push(c);
}

/// A `String` holding the characters of `s`.
pub fn owned(s: &str) -> (r: String)
    ensures
        r@ == s@,
{
    String::from_str(s)
}

/// Character-wise equality of two strings.
pub fn str_eq(a: &str, b: &str) -> (r: bool)
    ensures
        r == (a@ == b@),
{
    let n = a.unicode_len();
    let m = b.unicode_len();
    if n != m {
        return false;
    }
    let mut i: usize = 0;
    while i < n
        invariant
            n == a@.len(),
            m == b@.len(),
            n == m,
            i <= n,
            forall|k: int| 0 <= k < i ==> a@[k] == b@[k],
        decreases n - i,
    {
        if a.get_char(i) != b.get_char(i) {
            return false;
        }
        i += 1;
    }
    assert(a@ =~= b@);
    true
}

/// `needle` occurs in `hay` starting at character `i`.
pub open spec fn occurs_at(hay: Seq<char>, needle: Seq<char>, i: int) -> bool {
    0 <= i && i + needle.len() <= hay.len() && hay.subrange(i, i + needle.len()) == needle
}

/// `needle` occurs somewhere in `hay`.
pub open spec fn spec_contains(hay: Seq<char>, needle: Seq<char>) -> bool {
    exists|i: int| occurs_at(hay, needle, i)
}

fn occurs_at_exec(hay: &str, needle: &str, i: usize, n: usize, m: usize) -> (r: bool)
    requires
        n == hay@.len(),
        m == needle@.len(),
        i + m <= n,
    ensures
        r == occurs_at(hay@, needle@, i as int),
{
    let mut k: usize = 0;
    while k < m
        invariant
            n == hay@.len(),
            m == needle@.len(),
            i + m <= n,
            k <= m,
            forall|j: int| 0 <= j < k ==> hay@[i + j] == needle@[j],
        decreases m - k,
    {
        if hay.get_char(i + k) != needle.get_char(k) {
            assert(hay@.subrange(i as int, i + m)[k as int] != needle@[k as int]);
            return false;
        }
        k += 1;
    }
    assert(hay@.subrange(i as int, i + m) =~= needle@);
    true
}

/// Whether `needle` occurs in `hay` (`str::contains` for a string pattern).
pub fn contains(hay: &str, needle: &str) -> (r: bool)
    ensures
        r == spec_contains(hay@, needle@),
{
    let n = hay.unicode_len();
    let m = needle.unicode_len();
    if m > n {
        assert forall|i: int| !occurs_at(hay@, needle@, i) by {}
        return false;
    }
    let last = n - m;
    let mut i: usize = 0;
    loop
        invariant
            n == hay@.len(),
            m == needle@.len(),
            m <= n,
            last == n - m,
            i <= last,
            forall|j: int| 0 <= j < i ==> !occurs_at(hay@, needle@, j),
        ensures
            forall|j: int| 0 <= j <= last ==> !occurs_at(hay@, needle@, j),
        decreases last - i,
    {
        if occurs_at_exec(hay, needle, i, n, m) {
            return true;
        }
        if i == last {
            break;
        }
        i += 1;
    }
    assert forall|j: int| !occurs_at(hay@, needle@, j) by {
        if 0 <= j <= last {
        }
    }
    false
}

/// The decimal digit character for `d < 10`.
pub open spec fn digit_char(d: nat) -> char {
    (48 + d) as char
}

/// The decimal representation of `n`, without sign or leading zeros.
pub open spec fn decimal(n: nat) -> Seq<char>
    decreases n,
{
    if n < 10 {
        seq![digit_char(n)]
    } else {
        decimal(n / 10).push(digit_char(n % 10))
    }
}

/// Appends the decimal representation of `n`.
pub fn push_decimal(s: &mut String, n: u32)
    ensures
        final(s)@ == old(s)@ + decimal(n as nat),
    decreases n,
{
    let ghost start = s@;
    if n >= 10 {
        push_decimal(s, n / 10);
    }
    let d: u32 = n % 10;
    let c = ((48 + d) as u8) as char;
    push_char(s, c);
    proof {
        if n >= 10 {
            assert(s@ =~= start + decimal(n as nat));
        } else {
            assert(s@ =~= start + decimal(n as nat));
        }
    }
}

/// Appends the characters of `t`.
pub fn push_str(s: &mut String, t: &str)
    ensures
        final(s)@ == old(s)@ + t@,
{
    s.append(t);
}

/// Path joining (`Path::join`): an absolute `rel` replaces the base; a
/// relative one stands alone after an empty base, directly after a base
/// ending in `/`, otherwise after a `/` separator.
pub open spec fn spec_join(base: Seq<char>, rel: Seq<char>) -> Seq<char> {
    if rel.len() > 0 && rel[0] == '/' {
        rel
    } else if base.len() == 0 {
        rel
    } else if base.last() == '/' {
        base + rel
    } else {
        base.push('/') + rel
    }
}

/// Joins the path `rel` onto `base`; see [`spec_join`].
pub fn join_path(base: &str, rel: &str) -> (r: String)
    ensures
        r@ == spec_join(base@, rel@),
{
    let n = base.unicode_len();
    if rel.unicode_len() > 0 && rel.get_char(0) == '/' {
        return owned(rel);
    }
    if n == 0 {
        return owned(rel);
    }
    let mut s = owned(base);
    if base.get_char(n - 1) != '/' {
        push_char(&mut s, '/');
    }
    push_str(&mut s, rel);
    s
}

/// The first of `candidates` whose flag in `exists` is set, else
/// `fallback`.
pub open spec fn spec_first_existing(candidates: Seq<Seq<char>>, exists: Seq<bool>, fallback: Seq<char>) -> Seq<char>
    decreases candidates.len(),
{
    if candidates.len() == 0 || exists.len() == 0 {
        fallback
    } else if exists[0] {
        candidates[0]
    } else {
        spec_first_existing(candidates.drop_first(), exists.drop_first(), fallback)
    }
}

/// Picks the first candidate path that exists (`exists[i]` tells whether
/// `candidates[i]` does), else `fallback`.
pub fn first_existing(candidates: &Vec<String>, exists: &Vec<bool>, fallback: &str) -> (r: String)
    requires
        exists@.len() == candidates@.len(),
    ensures
        r@ == spec_first_existing(candidates@.map_values(|c: String| c@), exists@, fallback@),
{
    let ghost want = candidates@.map_values(|c: String| c@);
    let mut i: usize = 0;
    assert(want.skip(0) =~= want);
    assert(exists@.skip(0) =~= exists@);
    while i < candidates.len()
        invariant
            want == candidates@.map_values(|c: String| c@),
            exists@.len() == want.len(),
            i <= want.len(),
            spec_first_existing(want.skip(i as int), exists@.skip(i as int), fallback@)
                == spec_first_existing(want, exists@, fallback@),
        decreases want.len() - i,
    {
        if exists[i] {
            assert(exists@.skip(i as int)[0] && want.skip(i as int)[0] == want[i as int]);
            return candidates[i].clone();
        }
        assert(want.skip(i as int).drop_first() =~= want.skip(i + 1));
        assert(exists@.skip(i as int).drop_first() =~= exists@.skip(i + 1));
        i += 1;
    }
    owned(fallback)
}

proof fn lemma_decimal_len(n: nat)
    ensures
        decimal(n).len() >= 1,
        n >= 10 ==> decimal(n).len() >= 2,
    decreases n,
{
    if n >= 10 {
        lemma_decimal_len(n / 10);
    }
}

/// Different numbers have different decimal representations.
pub proof fn lemma_decimal_inj(a: nat, b: nat)
    requires
        decimal(a) == decimal(b),
    ensures
        a == b,
    decreases a,
{
    lemma_decimal_len(a);
    lemma_decimal_len(b);
    lemma_digit_char(a % 10);
    lemma_digit_char(b % 10);
    if a >= 10 && b >= 10 {
        let da = decimal(a);
        let db = decimal(b);
        assert(da.drop_last() =~= decimal(a / 10));
        assert(db.drop_last() =~= decimal(b / 10));
        assert(da == decimal(a / 10).push(digit_char(a % 10)));
        assert(db == decimal(b / 10).push(digit_char(b % 10)));
        assert(da.last() == digit_char(a % 10));
        assert(db.last() == digit_char(b % 10));
        assert(a % 10 == b % 10);
        lemma_decimal_inj(a / 10, b / 10);
        assert(a == 10 * (a / 10) + a % 10);
        assert(b == 10 * (b / 10) + b % 10);
    } else if a < 10 && b < 10 {
        assert(decimal(a)[0] == digit_char(a));
        assert(decimal(b)[0] == digit_char(b));
        lemma_digit_char(a);
        lemma_digit_char(b);
    }
}

proof fn lemma_digit_char(d: nat)
    requires
        d < 10,
    ensures
        digit_char(d) as int == 48 + d,
{
}

/// Keys made of a prefix, a number, `:` and a suffix differ when the
/// numbers do.
pub proof fn lemma_decimal_injective(a: nat, b: nat, la: Seq<char>, lb: Seq<char>)
    requires
        a != b,
        la == lb,
    ensures
        forall|p: Seq<char>| #![trigger p + decimal(a)] (p + decimal(a) + seq![':'] + la) != (p + decimal(b) + seq![':'] + lb),
{
    assert forall|p: Seq<char>| #![trigger p + decimal(a)] (p + decimal(a) + seq![':'] + la) != (p + decimal(b) + seq![':'] + lb) by {
        let x = p + decimal(a) + seq![':'] + la;
        let y = p + decimal(b) + seq![':'] + lb;
        if x == y {
            assert(x.len() == y.len());
            assert(decimal(a).len() == decimal(b).len());
            assert forall|i: int| 0 <= i < decimal(a).len() implies decimal(a)[i] == decimal(b)[i] by {
                assert(x[p.len() + i] == y[p.len() + i]);
            }
            assert(decimal(a) =~= decimal(b));
            lemma_decimal_inj(a, b);
        }
    }
}

/// The chosen path is either the fallback, when no candidate is flagged,
/// or the first flagged candidate.
pub proof fn lemma_first_existing_is_first(c: Seq<Seq<char>>, e: Seq<bool>, f: Seq<char>)
    requires
        c.len() == e.len(),
    ensures
        (forall|i: int| 0 <= i < c.len() ==> !e[i]) ==> spec_first_existing(c, e, f) == f,
        forall|i: int| 0 <= i < c.len() && e[i] && (forall|j: int| 0 <= j < i ==> !e[j]) ==> spec_first_existing(c, e, f)
            == c[i],
    decreases c.len(),
{
    if c.len() > 0 {
        lemma_first_existing_is_first(c.drop_first(), e.drop_first(), f);
        assert forall|i: int| 0 <= i < c.len() && e[i] && (forall|j: int| 0 <= j < i ==> !e[j]) implies spec_first_existing(
            c,
            e,
            f,
        ) == c[i] by {
            if i > 0 {
                assert(!e[0]);
                assert(e.drop_first()[i - 1]);
                assert forall|j: int| 0 <= j < i - 1 implies !e.drop_first()[j] by {
                    assert(!e[j + 1]);
                }
                assert(c.drop_first()[i - 1] == c[i]);
            }
        }
        if forall|i: int| 0 <= i < c.len() ==> !e[i] {
            assert forall|i: int| 0 <= i < c.drop_first().len() implies !e.drop_first()[i] by {
                assert(!e[i + 1]);
            }
            assert(!e[0]);
        }
    }
}

} // verus!
