//! Small verified text utilities: whitespace trimming and prefix tests,
//! stated over `Seq<char>` views.

use vstd::prelude::*;

verus! {

/// The whitespace characters that trimming removes: the Unicode
/// White_Space set, the one `char::is_whitespace` recognizes.
pub open spec fn is_ws(c: char) -> bool {
    let u = c as u32;
    u == 0x9 || u == 0xa || u == 0xb || u == 0xc || u == 0xd || u == 0x20 || u == 0x85
        || u == 0xa0 || u == 0x1680 || (0x2000 <= u && u <= 0x200a) || u == 0x2028 || u == 0x2029
        || u == 0x202f || u == 0x205f || u == 0x3000
}

/// `s` with leading whitespace removed.
pub open spec fn trim_front(s: Seq<char>) -> Seq<char>
    decreases s.len(),
{
    if s.len() > 0 && is_ws(s[0]) {
        trim_front(s.skip(1))
    } else {
        s
    }
}

/// `s` with trailing whitespace removed.
pub open spec fn trim_back(s: Seq<char>) -> Seq<char>
    decreases s.len(),
{
    if s.len() > 0 && is_ws(s[s.len() - 1]) {
        trim_back(s.take(s.len() - 1))
    } else {
        s
    }
}

/// `s` with leading and trailing whitespace removed.
pub open spec fn trimmed(s: Seq<char>) -> Seq<char> {
    trim_back(trim_front(s))
}

/// Dropping any number of leading whitespace characters at once keeps
/// the front-trimmed value.
proof fn lemma_trim_front_skip(s: Seq<char>, k: int)
    requires
        0 <= k <= s.len(),
        forall|j: int| 0 <= j < k ==> is_ws(s[j]),
    ensures
        trim_front(s) == trim_front(s.skip(k)),
    decreases k,
{
    if k == 0 {
        assert(s.skip(0) =~= s);
    } else {
        assert(is_ws(s[0]));
        lemma_trim_front_skip(s.skip(1), k - 1);
        assert(s.skip(1).skip(k - 1) =~= s.skip(k));
    }
}

/// Dropping any number of trailing whitespace characters at once keeps
/// the back-trimmed value.
proof fn lemma_trim_back_take(s: Seq<char>, m: int)
    requires
        0 <= m <= s.len(),
        forall|j: int| m <= j < s.len() ==> is_ws(s[j]),
    ensures
        trim_back(s) == trim_back(s.take(m)),
    decreases s.len() - m,
{
    if m == s.len() {
        assert(s.take(m) =~= s);
    } else {
        assert(is_ws(s[s.len() - 1]));
        lemma_trim_back_take(s.take(s.len() - 1), m);
        assert(s.take(s.len() - 1).take(m) =~= s.take(m));
    }
}

/// Whether `c` is a whitespace character in the sense of [`is_ws`].
pub fn is_whitespace_char(c: char) -> (r: bool)
    ensures
        r == is_ws(c),
{
    let u = c as u32;
    u == 0x9 || u == 0xa || u == 0xb || u == 0xc || u == 0xd || u == 0x20 || u == 0x85
        || u == 0xa0 || u == 0x1680 || (0x2000 <= u && u <= 0x200a) || u == 0x2028 || u == 0x2029
        || u == 0x202f || u == 0x205f || u == 0x3000
}

/// `s` with leading and trailing whitespace removed.
pub fn trim(s: &str) -> (r: &str)
    ensures
        r@ == trimmed(s@),
{
    let n = s.unicode_len();
    let mut start: usize = 0;
    while start < n && is_whitespace_char(s.get_char(start))
        invariant
            n == s@.len(),
            start <= n,
            forall|j: int| 0 <= j < start ==> is_ws(s@[j]),
        decreases n - start,
    {
        start += 1;
    }
    let mut end: usize = n;
    while end > start && is_whitespace_char(s.get_char(end - 1))
        invariant
            n == s@.len(),
            start <= end <= n,
            forall|j: int| end <= j < n ==> is_ws(s@[j]),
        decreases end,
    {
        end -= 1;
    }
    let r = s.substring_char(start, end);
    proof {
        lemma_trim_front_skip(s@, start as int);
        let t = s@.skip(start as int);
        if start < n {
            assert(!is_ws(s@[start as int]));
            assert(t[0] == s@[start as int]);
        }
        assert(trim_front(t) == t);
        lemma_trim_back_take(t, end - start);
        assert(t.take(end - start) =~= s@.subrange(start as int, end as int));
        let u = t.take(end - start);
        if end > start {
            assert(!is_ws(s@[end - 1]));
            assert(u[u.len() - 1] == s@[end - 1]);
        }
        assert(trim_back(u) == u);
        assert(r@ == trimmed(s@));
    }
    r
}

/// Whether `p@` is a prefix of `s@`.
pub open spec fn starts_with(s: Seq<char>, p: Seq<char>) -> bool {
    s.len() >= p.len() && s.subrange(0, p.len() as int) == p
}

/// Whether `s` starts with the prefix `p`, character by character.
pub fn has_prefix(s: &str, p: &str) -> (r: bool)
    ensures
        r == starts_with(s@, p@),
{
    let n = s.unicode_len();
    let m = p.unicode_len();
    if n < m {
        return false;
    }
    let mut i: usize = 0;
    while i < m
        invariant
            n == s@.len(),
            m == p@.len(),
            m <= n,
            i <= m,
            forall|j: int| 0 <= j < i ==> s@[j] == p@[j],
        decreases m - i,
    {
        if s.get_char(i) != p.get_char(i) {
            proof {
                assert(s@.subrange(0, m as int)[i as int] != p@[i as int]);
            }
            return false;
        }
        i += 1;
    }
    proof {
        assert(s@.subrange(0, m as int) =~= p@);
    }
    true
}

/// Character-by-character equality of two string slices.
pub fn str_eq(a: &str, b: &str) -> (r: bool)
    ensures
        r == (a@ == b@),
{
    let la = a.unicode_len();
    let lb = b.unicode_len();
    if la != lb {
        return false;
    }
    if has_prefix(a, b) {
        proof {
            assert(a@.subrange(0, lb as int) =~= a@);
        }
        true
    } else {
        proof {
            if a@ == b@ {
                assert(a@.subrange(0, lb as int) =~= b@);
            }
        }
        false
    }
}

} // verus!
