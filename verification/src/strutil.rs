//! Character-level string helpers: trimming, ASCII case folding and comparison.

use vstd::prelude::*;
use vstd::string::*;

verus! {

/// The characters Rust's `char::is_whitespace` accepts (Unicode White_Space).
pub open spec fn is_unicode_whitespace(c: char) -> bool {
    let v = c as u32;
    (0x09 <= v <= 0x0D) || v == 0x20 || v == 0x85 || v == 0xA0 || v == 0x1680
        || (0x2000 <= v <= 0x200A) || v == 0x2028 || v == 0x2029 || v == 0x202F || v == 0x205F || v == 0x3000
}

/// `s` without leading whitespace.
pub open spec fn trim_start_seq(s: Seq<char>) -> Seq<char>
    decreases s.len(),
{
    if s.len() > 0 && is_unicode_whitespace(s[0]) { trim_start_seq(s.drop_first()) } else { s }
}

/// `s` without trailing whitespace.
pub open spec fn trim_end_seq(s: Seq<char>) -> Seq<char>
    decreases s.len(),
{
    if s.len() > 0 && is_unicode_whitespace(s.last()) { trim_end_seq(s.drop_last()) } else { s }
}

/// `s` without leading and trailing whitespace, as `str::trim` gives it.
pub open spec fn trim_seq(s: Seq<char>) -> Seq<char> {
    trim_end_seq(trim_start_seq(s))
}

/// Code of the ASCII upper case form of a character.
pub open spec fn upper_code(c: char) -> u32 {
    if 97 <= (c as u32) <= 122 { (c as u32 - 32) as u32 } else { c as u32 }
}

/// Code of the ASCII lower case form of a character.
pub open spec fn lower_code(c: char) -> u32 {
    if 65 <= (c as u32) <= 90 { (c as u32 + 32) as u32 } else { c as u32 }
}

/// `to_ascii_uppercase(s) == t`.
pub open spec fn upper_eq(s: Seq<char>, t: Seq<char>) -> bool {
    s.len() == t.len() && forall|i: int| 0 <= i < s.len() ==> upper_code(#[trigger] s[i]) == t[i] as u32
}

/// `to_ascii_lowercase(s) == t`.
pub open spec fn lower_eq(s: Seq<char>, t: Seq<char>) -> bool {
    s.len() == t.len() && forall|i: int| 0 <= i < s.len() ==> lower_code(#[trigger] s[i]) == t[i] as u32
}

/// `s` contains `t` as a contiguous part.
pub open spec fn contains_seq(s: Seq<char>, t: Seq<char>) -> bool {
    exists|k: int| 0 <= k && k + t.len() <= s.len() && #[trigger] s.subrange(k, k + t.len()) == t
}

pub fn char_is_whitespace(c: char) -> (r: bool)
    ensures
        r == is_unicode_whitespace(c),
{
    let v = c as u32;
    (0x09 <= v && v <= 0x0D) || v == 0x20 || v == 0x85 || v == 0xA0 || v == 0x1680
        || (0x2000 <= v && v <= 0x200A) || v == 0x2028 || v == 0x2029 || v == 0x202F || v == 0x205F || v == 0x3000
}

proof fn lemma_trim_start_step(s: Seq<char>, i: int)
    requires
        0 <= i < s.len(),
        is_unicode_whitespace(s[i]),
    ensures
        trim_start_seq(s.subrange(i, s.len() as int)) == trim_start_seq(s.subrange(i + 1, s.len() as int)),
{
    let t = s.subrange(i, s.len() as int);
    assert(t.drop_first() =~= s.subrange(i + 1, s.len() as int));
}

proof fn lemma_trim_end_step(s: Seq<char>, a: int, j: int)
    requires
        0 <= a < j <= s.len(),
        is_unicode_whitespace(s[j - 1]),
    ensures
        trim_end_seq(s.subrange(a, j)) == trim_end_seq(s.subrange(a, j - 1)),
{
    let t = s.subrange(a, j);
    assert(t.drop_last() =~= s.subrange(a, j - 1));
}

/// Character bounds `[start, end)` of the trimmed part of `s`.
pub fn trim_bounds(s: &str) -> (r: (usize, usize))
    ensures
        r.0 <= r.1 <= s@.len(),
        s@.subrange(r.0 as int, r.1 as int) == trim_seq(s@),
{
    let n = s.unicode_len();
    let mut a: usize = 0;
    assert(s@.subrange(0, n as int) =~= s@);
    while a < n && char_is_whitespace(s.get_char(a))
        invariant
            n == s@.len(),
            a <= n,
            trim_start_seq(s@) == trim_start_seq(s@.subrange(a as int, n as int)),
        decreases n - a,
    {
        proof { lemma_trim_start_step(s@, a as int); }
        a = a + 1;
    }
    assert(trim_start_seq(s@.subrange(a as int, n as int)) == s@.subrange(a as int, n as int));
    let mut b: usize = n;
    while b > a && char_is_whitespace(s.get_char(b - 1))
        invariant
            n == s@.len(),
            a <= b <= n,
            trim_start_seq(s@) == s@.subrange(a as int, n as int),
            trim_seq(s@) == trim_end_seq(s@.subrange(a as int, b as int)),
        decreases b - a,
    {
        proof { lemma_trim_end_step(s@, a as int, b as int); }
        b = b - 1;
    }
    (a, b)
}

/// Whether `to_ascii_uppercase(trim(s))` equals `target`.
pub fn trimmed_upper_equals(s: &str, target: &str) -> (r: bool)
    ensures
        r == upper_eq(trim_seq(s@), target@),
{
    let (a, b) = trim_bounds(s);
    let ghost t = s@.subrange(a as int, b as int);
    let m = target.unicode_len();
    if b - a != m {
        return false;
    }
    let mut i: usize = 0;
    while i < m
        invariant
            m == target@.len(),
            b - a == m,
            a <= b <= s@.len(),
            t == s@.subrange(a as int, b as int),
            t == trim_seq(s@),
            i <= m,
            forall|k: int| 0 <= k < i ==> upper_code(#[trigger] t[k]) == target@[k] as u32,
        decreases m - i,
    {
        let c = s.get_char(a + i) as u32;
        let up: u32 = if 97 <= c && c <= 122 { c - 32 } else { c };
        if up != target.get_char(i) as u32 {
            assert(upper_code(t[i as int]) != target@[i as int] as u32);
            assert(!upper_eq(t, target@));
            return false;
        }
        i = i + 1;
    }
    true
}

/// Whether `to_ascii_lowercase(trim(s))` equals `target`.
pub fn trimmed_lower_equals(s: &str, target: &str) -> (r: bool)
    ensures
        r == lower_eq(trim_seq(s@), target@),
{
    let (a, b) = trim_bounds(s);
    let ghost t = s@.subrange(a as int, b as int);
    let m = target.unicode_len();
    if b - a != m {
        return false;
    }
    let mut i: usize = 0;
    while i < m
        invariant
            m == target@.len(),
            b - a == m,
            a <= b <= s@.len(),
            t == s@.subrange(a as int, b as int),
            t == trim_seq(s@),
            i <= m,
            forall|k: int| 0 <= k < i ==> lower_code(#[trigger] t[k]) == target@[k] as u32,
        decreases m - i,
    {
        let c = s.get_char(a + i) as u32;
        let low: u32 = if 65 <= c && c <= 90 { c + 32 } else { c };
        if low != target.get_char(i) as u32 {
            assert(lower_code(t[i as int]) != target@[i as int] as u32);
            assert(!lower_eq(t, target@));
            return false;
        }
        i = i + 1;
    }
    true
}

/// Whether `trim(s)` equals `target`.
pub fn trimmed_equals(s: &str, target: &str) -> (r: bool)
    ensures
        r == (trim_seq(s@) == target@),
{
    let (a, b) = trim_bounds(s);
    let ghost t = s@.subrange(a as int, b as int);
    let m = target.unicode_len();
    if b - a != m {
        return false;
    }
    let mut i: usize = 0;
    while i < m
        invariant
            m == target@.len(),
            b - a == m,
            a <= b <= s@.len(),
            t == s@.subrange(a as int, b as int),
            t == trim_seq(s@),
            i <= m,
            forall|k: int| 0 <= k < i ==> #[trigger] t[k] == target@[k],
        decreases m - i,
    {
        if s.get_char(a + i) != target.get_char(i) {
            assert(t[i as int] != target@[i as int]);
            return false;
        }
        i = i + 1;
    }
    assert(t =~= target@);
    true
}

/// Whether two strings hold the same characters.
pub fn str_equals(s: &str, target: &str) -> (r: bool)
    ensures
        r == (s@ == target@),
{
    let n = s.unicode_len();
    let m = target.unicode_len();
    if n != m {
        return false;
    }
    let mut i: usize = 0;
    while i < m
        invariant
            m == target@.len(),
            n == s@.len(),
            n == m,
            i <= m,
            forall|k: int| 0 <= k < i ==> #[trigger] s@[k] == target@[k],
        decreases m - i,
    {
        if s.get_char(i) != target.get_char(i) {
            return false;
        }
        i = i + 1;
    }
    assert(s@ =~= target@);
    true
}

/// Whether `s` contains `t`.
pub fn str_contains(s: &str, t: &str) -> (r: bool)
    ensures
        r == contains_seq(s@, t@),
{
    let n = s.unicode_len();
    let m = t.unicode_len();
    if m > n {
        assert forall|k: int| 0 <= k && k + t@.len() <= s@.len() implies #[trigger] s@.subrange(k, k + t@.len()) != t@ by {}
        return false;
    }
    if m == 0 {
        assert(s@.subrange(0, 0 + t@.len() as int) =~= t@);
        return true;
    }
    let mut k: usize = 0;
    while k <= n - m
        invariant
            n == s@.len(),
            m == t@.len(),
            1 <= m <= n,
            k <= n - m + 1,
            forall|j: int| 0 <= j < k ==> #[trigger] s@.subrange(j, j + m) != t@,
        decreases n - m + 1 - k,
    {
        let mut i: usize = 0;
        let mut same = true;
        while i < m
            invariant
                n == s@.len(),
                m == t@.len(),
                k + m <= n,
                i <= m,
                same ==> forall|q: int| 0 <= q < i ==> #[trigger] s@[k + q] == t@[q],
                !same ==> s@.subrange(k as int, k + m) != t@,
            decreases m - i,
        {
            if same && s.get_char(k + i) != t.get_char(i) {
                same = false;
                assert(s@.subrange(k as int, k + m)[i as int] != t@[i as int]);
            }
            i = i + 1;
        }
        if same {
            assert forall|q: int| 0 <= q < m implies #[trigger] s@.subrange(k as int, k + m)[q] == t@[q] by {
                assert(s@[k + q] == t@[q]);
            }
            assert(s@.subrange(k as int, k + m) =~= t@);
            return true;
        }
        k = k + 1;
    }
    assert forall|j: int| 0 <= j && j + t@.len() <= s@.len() implies #[trigger] s@.subrange(j, j + t@.len()) != t@ by {
        assert(j < k);
    }
    false
}

} // verus!
