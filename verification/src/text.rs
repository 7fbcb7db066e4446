//! Verified text primitives: ASCII case folding, case-insensitive
//! substring search (the event-kind classifier), string equality, and
//! trailing-slash trimming for URL building.

use vstd::prelude::*;

verus! {

/// ASCII lower-casing of one character; every other character is kept.
pub open spec fn lower_char(c: char) -> char {
    match c {
        'A' => 'a',
        'B' => 'b',
        'C' => 'c',
        'D' => 'd',
        'E' => 'e',
        'F' => 'f',
        'G' => 'g',
        'H' => 'h',
        'I' => 'i',
        'J' => 'j',
        'K' => 'k',
        'L' => 'l',
        'M' => 'm',
        'N' => 'n',
        'O' => 'o',
        'P' => 'p',
        'Q' => 'q',
        'R' => 'r',
        'S' => 's',
        'T' => 't',
        'U' => 'u',
        'V' => 'v',
        'W' => 'w',
        'X' => 'x',
        'Y' => 'y',
        'Z' => 'z',
        _ => c,
    }
}

/// ASCII lower-casing, executable form.
#[verifier::when_used_as_spec(lower_char)]
pub fn ascii_lower(c: char) -> (r: char)
    ensures
        r == lower_char(c),
{
    match c {
        'A' => 'a',
        'B' => 'b',
        'C' => 'c',
        'D' => 'd',
        'E' => 'e',
        'F' => 'f',
        'G' => 'g',
        'H' => 'h',
        'I' => 'i',
        'J' => 'j',
        'K' => 'k',
        'L' => 'l',
        'M' => 'm',
        'N' => 'n',
        'O' => 'o',
        'P' => 'p',
        'Q' => 'q',
        'R' => 'r',
        'S' => 's',
        'T' => 't',
        'U' => 'u',
        'V' => 'v',
        'W' => 'w',
        'X' => 'x',
        'Y' => 'y',
        'Z' => 'z',
        _ => c,
    }
}

/// The needle occurs, ignoring ASCII case, at offset `k` of the haystack.
pub open spec fn matches_ci_at(h: Seq<char>, n: Seq<char>, k: int) -> bool {
    forall|j: int| 0 <= j < n.len() ==> lower_char(h[k + j]) == lower_char(#[trigger] n[j])
}

/// The needle occurs somewhere in the haystack, ignoring ASCII case.
/// An empty needle occurs in every string.
pub open spec fn contains_ci(h: Seq<char>, n: Seq<char>) -> bool {
    exists|k: int| 0 <= k <= h.len() - n.len() && matches_ci_at(h, n, k)
}

/// Whether the needle occurs at offset `k` of the haystack, ignoring case.
fn matches_at(h: &str, n: &str, hl: usize, nl: usize, k: usize) -> (r: bool)
    requires
        hl == h@.len(),
        nl == n@.len(),
        k + nl <= hl,
    ensures
        r == matches_ci_at(h@, n@, k as int),
{
    let mut j: usize = 0;
    while j < nl
        invariant
            hl == h@.len(),
            nl == n@.len(),
            k + nl <= hl,
            j <= nl,
            forall|j2: int|
                0 <= j2 < j ==> lower_char(h@[k + j2]) == lower_char(#[trigger] n@[j2]),
        decreases nl - j,
    {
        let hc = h.get_char(k + j);
        let nc = n.get_char(j);
        if ascii_lower(hc) != ascii_lower(nc) {
            return false;
        }
        j = j + 1;
    }
    true
}

/// Case-insensitive substring search, the semantics of a SQL
/// `ILIKE '%needle%'` match on ASCII text.
pub fn contains_ci_str(h: &str, n: &str) -> (r: bool)
    ensures
        r == contains_ci(h@, n@),
{
    let hl = h.unicode_len();
    let nl = n.unicode_len();
    if nl > hl {
        return false;
    }
    let mut k: usize = 0;
    while k <= hl - nl
        invariant
            hl == h@.len(),
            nl == n@.len(),
            nl <= hl,
            k <= hl - nl + 1,
            forall|k2: int| 0 <= k2 < k ==> !matches_ci_at(h@, n@, k2),
        decreases hl - nl - k + 1,
    {
        if matches_at(h, n, hl, nl, k) {
            return true;
        }
        k = k + 1;
    }
    false
}

/// Character-wise string equality.
pub fn str_eq(a: &str, b: &str) -> (r: bool)
    ensures
        r == (a@ == b@),
{
    let al = a.unicode_len();
    let bl = b.unicode_len();
    if al != bl {
        return false;
    }
    let mut i: usize = 0;
    while i < al
        invariant
            al == a@.len(),
            bl == b@.len(),
            al == bl,
            i <= al,
            forall|j: int| 0 <= j < i ==> a@[j] == b@[j],
        decreases al - i,
    {
        if a.get_char(i) != b.get_char(i) {
            return false;
        }
        i = i + 1;
    }
    proof {
        assert(a@ =~= b@);
    }
    true
}

/// The sequence with every trailing `'/'` removed.
pub open spec fn trim_trailing_slashes(s: Seq<char>) -> Seq<char>
    decreases s.len(),
{
    if s.len() > 0 && s.last() == '/' {
        trim_trailing_slashes(s.drop_last())
    } else {
        s
    }
}

/// Copies `s` without its trailing slashes.
pub fn without_trailing_slashes(s: &str) -> (r: String)
    ensures
        r@ == trim_trailing_slashes(s@),
{
    let len = s.unicode_len();
    let mut e: usize = len;
    proof {
        assert(s@.take(len as int) =~= s@);
    }
    while e > 0 && s.get_char(e - 1) == '/'
        invariant
            len == s@.len(),
            e <= len,
            trim_trailing_slashes(s@) == trim_trailing_slashes(s@.take(e as int)),
        decreases e,
    {
        proof {
            assert(s@.take(e as int).drop_last() =~= s@.take(e - 1));
        }
        e = e - 1;
    }
    let sub = s.substring_char(0, e);
    proof {
        assert(s@.take(e as int) =~= s@.subrange(0, e as int));
        if e > 0 {
            assert(s@.take(e as int).last() == s@[e - 1]);
        }
    }
    String::from_str(sub)
}

} // verus!
