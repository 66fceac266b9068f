//! Character and string helpers shared by the tokenizer and the importer:
//! ASCII case mapping, string equality, and (case-sensitive and
//! case-insensitive) substring search.

use vstd::prelude::*;

verus! {

/// ASCII lower-case image of a character; everything outside `A`..`Z` is kept.
pub open spec fn lower_char(c: char) -> char {
    if 65 <= c as u32 && c as u32 <= 90 {
        ((c as u32 + 32) as u8) as char
    } else {
        c
    }
}

/// ASCII upper-case image of a character; everything outside `a`..`z` is kept.
pub open spec fn upper_char(c: char) -> char {
    if 97 <= c as u32 && c as u32 <= 122 {
        ((c as u32 - 32) as u8) as char
    } else {
        c
    }
}

/// Two characters are equal up to ASCII case.
pub open spec fn ci_eq_char(a: char, b: char) -> bool {
    lower_char(a) == lower_char(b)
}

/// ASCII upper-case image of a whole string.
pub open spec fn upper_seq(s: Seq<char>) -> Seq<char> {
    s.map_values(|c: char| upper_char(c))
}

/// `sub` occurs in `s` starting at position `i`.
pub open spec fn matches_at(s: Seq<char>, sub: Seq<char>, i: int) -> bool {
    0 <= i && i + sub.len() <= s.len() && s.subrange(i, i + sub.len() as int) == sub
}

/// `sub` occurs somewhere in `s`.
pub open spec fn contains_seq(s: Seq<char>, sub: Seq<char>) -> bool {
    exists|i: int| matches_at(s, sub, i)
}

/// `sub` occurs in `s` starting at position `i`, up to ASCII case.
pub open spec fn ci_matches_at(s: Seq<char>, sub: Seq<char>, i: int) -> bool {
    &&& 0 <= i
    &&& i + sub.len() <= s.len()
    &&& forall|j: int| 0 <= j < sub.len() ==> ci_eq_char(s[i + j], #[trigger] sub[j])
}

/// `sub` occurs somewhere in `s`, up to ASCII case.
pub open spec fn contains_ci(s: Seq<char>, sub: Seq<char>) -> bool {
    exists|i: int| ci_matches_at(s, sub, i)
}

pub fn to_upper_char(c: char) -> (r: char)
    ensures
        r == upper_char(c),
{
    let x = c as u32;
    if 97 <= x && x <= 122 {
        ((x - 32) as u8) as char
    } else {
        c
    }
}

pub fn to_lower_char(c: char) -> (r: char)
    ensures
        r == lower_char(c),
{
    let x = c as u32;
    if 65 <= x && x <= 90 {
        ((x + 32) as u8) as char
    } else {
        c
    }
}

/// Relies on std's `String::push`: appends exactly the given character.
#[verifier::external_body]
pub fn push_char(s: &mut String, c: char)
    ensures
        final(s)@ == old(s)@.push(c),
{
    s.push(c);
}

/// String equality by contents.
pub fn str_eq(a: &str, b: &str) -> (r: bool)
    ensures
        r == (a@ == b@),
{
    let na = a.unicode_len();
    let nb = b.unicode_len();
    if na != nb {
        return false;
    }
    let mut i: usize = 0;
    while i < na
        invariant
            na == a@.len(),
            na == b@.len(),
            0 <= i <= na,
            forall|j: int| 0 <= j < i ==> a@[j] == b@[j],
        decreases na - i,
    {
        if a.get_char(i) != b.get_char(i) {
            return false;
        }
        i += 1;
    }
    proof {
        assert(a@ =~= b@);
    }
    true
}

/// ASCII upper-case image of a whole string.
pub fn to_upper(s: &str) -> (r: String)
    ensures
        r@ == upper_seq(s@),
{
    let n = s.unicode_len();
    let mut out = String::new();
    let mut i: usize = 0;
    while i < n
        invariant
            n == s@.len(),
            0 <= i <= n,
            out@ == upper_seq(s@.take(i as int)),
        decreases n - i,
    {
        let c = to_upper_char(s.get_char(i));
        push_char(&mut out, c);
        proof {
            assert(out@ =~= upper_seq(s@.take(i + 1)));
        }
        i += 1;
    }
    proof {
        assert(s@.take(n as int) =~= s@);
    }
    out
}

/// Case-sensitive substring search.
pub fn str_contains(s: &str, sub: &str) -> (r: bool)
    ensures
        r == contains_seq(s@, sub@),
{
    let n = s.unicode_len();
    let m = sub.unicode_len();
    if m > n {
        return false;
    }
    if m == 0 {
        proof {
            assert(s@.subrange(0, 0) =~= sub@);
            assert(matches_at(s@, sub@, 0));
        }
        return true;
    }
    let mut i: usize = 0;
    while i <= n - m
        invariant
            n == s@.len(),
            m == sub@.len(),
            0 < m <= n,
            0 <= i <= n - m + 1,
            forall|k: int| 0 <= k < i ==> !matches_at(s@, sub@, k),
        decreases n - i,
    {
        let mut j: usize = 0;
        let mut hit = true;
        while j < m
            invariant
                n == s@.len(),
                m == sub@.len(),
                0 < m <= n,
                0 <= i <= n - m,
                0 <= j <= m,
                hit ==> forall|t: int| 0 <= t < j ==> s@[i + t] == #[trigger] sub@[t],
                !hit ==> !matches_at(s@, sub@, i as int),
            decreases m - j,
        {
            if s.get_char(i + j) != sub.get_char(j) {
                proof {
                    assert(!matches_at(s@, sub@, i as int)) by {
                        if matches_at(s@, sub@, i as int) {
                            assert(s@.subrange(i as int, i + m as int)[j as int] == sub@[j as int]);
                        }
                    }
                }
                hit = false;
                j = m;
            } else {
                j += 1;
            }
        }
        if hit {
            proof {
                assert forall|t: int| 0 <= t < m implies s@.subrange(i as int, i + m as int)[t]
                    == sub@[t] by {
                    assert(s@[i + t] == sub@[t]);
                }
                assert(s@.subrange(i as int, i + m as int) =~= sub@);
                assert(matches_at(s@, sub@, i as int));
            }
            return true;
        }
        i += 1;
    }
    proof {
        assert(!contains_seq(s@, sub@)) by {
            if contains_seq(s@, sub@) {
                let k = choose|k: int| matches_at(s@, sub@, k);
                assert(!matches_at(s@, sub@, k));
            }
        }
    }
    false
}

/// Substring search up to ASCII case.
pub fn str_contains_ci(s: &str, sub: &str) -> (r: bool)
    ensures
        r == contains_ci(s@, sub@),
{
    let n = s.unicode_len();
    let m = sub.unicode_len();
    if m > n {
        return false;
    }
    if m == 0 {
        proof {
            assert(ci_matches_at(s@, sub@, 0));
        }
        return true;
    }
    let mut i: usize = 0;
    while i <= n - m
        invariant
            n == s@.len(),
            m == sub@.len(),
            0 < m <= n,
            0 <= i <= n - m + 1,
            forall|k: int| 0 <= k < i ==> !ci_matches_at(s@, sub@, k),
        decreases n - i,
    {
        let mut j: usize = 0;
        let mut hit = true;
        while j < m
            invariant
                n == s@.len(),
                m == sub@.len(),
                0 < m <= n,
                0 <= i <= n - m,
                0 <= j <= m,
                hit ==> forall|t: int| 0 <= t < j ==> ci_eq_char(s@[i + t], #[trigger] sub@[t]),
                !hit ==> !ci_matches_at(s@, sub@, i as int),
            decreases m - j,
        {
            let a = to_lower_char(s.get_char(i + j));
            let b = to_lower_char(sub.get_char(j));
            if a != b {
                hit = false;
                j = m;
            } else {
                j += 1;
            }
        }
        if hit {
            proof {
                assert(ci_matches_at(s@, sub@, i as int));
            }
            return true;
        }
        i += 1;
    }
    proof {
        assert(!contains_ci(s@, sub@)) by {
            if contains_ci(s@, sub@) {
                let k = choose|k: int| ci_matches_at(s@, sub@, k);
                assert(!ci_matches_at(s@, sub@, k));
            }
        }
    }
    false
}

} // verus!
