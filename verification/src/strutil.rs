//! Small verified helpers for building and inspecting strings.

use vstd::prelude::*;

verus! {

/// Appends one character to a string.
///
/// Relies on `String::push`: the character is appended at the end.
#[verifier::external_body]
pub fn push_char(s: &mut String, c: char)
    ensures
        final(s)@ == old(s)@.push(c),
{
    s.push(c);
}

/// Builds a `String` from a sequence of characters.
pub fn chars_to_string(v: &Vec<char>) -> (s: String)
    ensures
        s@ == v@,
{
    let mut s = String::new();
    let mut i: usize = 0;
    while i < v.len()
        invariant
            i <= v.len(),
            s@ == v@.subrange(0, i as int),
        decreases v.len() - i,
    {
        push_char(&mut s, v[i]);
        i = i + 1;
        assert(s@ =~= v@.subrange(0, i as int));
    }
    assert(s@ =~= v@);
    s
}

/// Collects the characters of a string slice into a vector.
pub fn str_to_chars(s: &str) -> (v: Vec<char>)
    ensures
        v@ == s@,
{
    let mut v: Vec<char> = Vec::new();
    let n = s.unicode_len();
    let mut i: usize = 0;
    while i < n
        invariant
            i <= n,
            n == s@.len(),
            v@ == s@.subrange(0, i as int),
        decreases n - i,
    {
        v.push(s.get_char(i));
        i = i + 1;
        assert(v@ =~= s@.subrange(0, i as int));
    }
    assert(v@ =~= s@);
    v
}

/// Whether `pat` occurs in `s` starting at position `i`.
pub open spec fn occurs_at(s: Seq<char>, pat: Seq<char>, i: int) -> bool {
    &&& 0 <= i
    &&& i + pat.len() <= s.len()
    &&& s.subrange(i, i + pat.len()) == pat
}

/// The least position at or after `i` where `pat` occurs in `s`, if any.
pub open spec fn find_from(s: Seq<char>, pat: Seq<char>, i: int) -> Option<int>
    decreases s.len() - i when 0 <= i <= s.len()
{
    if i + pat.len() > s.len() {
        None
    } else if occurs_at(s, pat, i) {
        Some(i)
    } else if i < s.len() {
        find_from(s, pat, i + 1)
    } else {
        None
    }
}

/// `find_from` returns the least occurrence at or after its starting point.
pub proof fn lemma_find_from_some(s: Seq<char>, pat: Seq<char>, i0: int, i: int)
    requires
        0 <= i0 <= i,
        occurs_at(s, pat, i),
        forall|j: int| i0 <= j < i ==> !occurs_at(s, pat, j),
    ensures
        find_from(s, pat, i0) == Some(i),
    decreases i - i0,
{
    if i0 < i {
        lemma_find_from_some(s, pat, i0 + 1, i);
    }
}

/// `find_from` returns nothing when `pat` occurs nowhere at or after the
/// starting point.
pub proof fn lemma_find_from_none(s: Seq<char>, pat: Seq<char>, i0: int)
    requires
        0 <= i0 <= s.len(),
        forall|j: int| i0 <= j ==> !occurs_at(s, pat, j),
    ensures
        find_from(s, pat, i0) is None,
    decreases s.len() - i0,
{
    if i0 + pat.len() <= s.len() && i0 < s.len() {
        lemma_find_from_none(s, pat, i0 + 1);
    }
}

/// A position found by `find_from` is an occurrence.
pub proof fn lemma_find_from_is_occurrence(s: Seq<char>, pat: Seq<char>, i0: int, i: int)
    requires
        0 <= i0 <= s.len(),
        find_from(s, pat, i0) == Some(i),
    ensures
        i0 <= i,
        occurs_at(s, pat, i),
    decreases s.len() - i0,
{
    if i0 + pat.len() <= s.len() && !occurs_at(s, pat, i0) && i0 < s.len() {
        lemma_find_from_is_occurrence(s, pat, i0 + 1, i);
    }
}

/// Whether `pat` occurs in `hay` at position `i`.
pub(crate) fn occurs_at_exec(hay: &Vec<char>, pat: &Vec<char>, i: usize) -> (r: bool)
    requires
        i <= hay@.len(),
    ensures
        r == occurs_at(hay@, pat@, i as int),
{
    if pat.len() > hay.len() - i {
        return false;
    }
    let mut k: usize = 0;
    while k < pat.len()
        invariant
            i + pat@.len() <= hay@.len(),
            k <= pat@.len(),
            forall|t: int| 0 <= t < k ==> hay@[i + t] == pat@[t],
        decreases pat@.len() - k,
    {
        proof {
            assert(i + k < hay.len());
        }
        if hay[i + k] != pat[k] {
            proof {
                assert(hay@.subrange(i as int, i + pat@.len())[k as int] == hay@[i + k]);
            }
            return false;
        }
        k = k + 1;
    }
    proof {
        assert(hay@.subrange(i as int, i + pat@.len()) =~= pat@);
    }
    true
}

/// Whether `pat` occurs anywhere in `s`.
pub open spec fn contains_pattern(s: Seq<char>, pat: Seq<char>) -> bool {
    exists|i: int| occurs_at(s, pat, i)
}

/// Whether `pat` occurs anywhere in `hay`.
pub(crate) fn contains_exec(hay: &Vec<char>, pat: &Vec<char>) -> (r: bool)
    ensures
        r == contains_pattern(hay@, pat@),
{
    if pat.len() == 0 {
        proof {
            assert(hay@.subrange(0, 0) =~= pat@);
            assert(occurs_at(hay@, pat@, 0));
        }
        return true;
    }
    if pat.len() > hay.len() {
        proof {
            assert(forall|j: int| !occurs_at(hay@, pat@, j));
        }
        return false;
    }
    let last = hay.len() - pat.len();
    let mut i: usize = 0;
    while i <= last
        invariant
            1 <= pat@.len() <= hay@.len(),
            last == hay.len() - pat.len(),
            i <= last + 1,
            forall|j: int| 0 <= j < i ==> !occurs_at(hay@, pat@, j),
        decreases last + 1 - i,
    {
        if occurs_at_exec(hay, pat, i) {
            return true;
        }
        proof {
            assert(i < hay.len());
        }
        i = i + 1;
    }
    proof {
        assert forall|j: int| !occurs_at(hay@, pat@, j) by {
            if 0 <= j <= last as int {
                assert(!occurs_at(hay@, pat@, j));
            }
        }
    }
    false
}

/// The least position where `pat` occurs in `hay`, if any.
pub(crate) fn find_first(hay: &Vec<char>, pat: &Vec<char>) -> (r: Option<usize>)
    ensures
        match r {
            Some(i) => i + pat@.len() <= hay@.len() && find_from(hay@, pat@, 0) == Some(i as int),
            None => find_from(hay@, pat@, 0) is None,
        },
{
    if pat.len() == 0 {
        proof {
            assert(hay@.subrange(0, 0) =~= pat@);
            assert(occurs_at(hay@, pat@, 0));
            lemma_find_from_some(hay@, pat@, 0, 0);
        }
        return Some(0);
    }
    if pat.len() > hay.len() {
        proof {
            assert(forall|j: int| !occurs_at(hay@, pat@, j));
            lemma_find_from_none(hay@, pat@, 0);
        }
        return None;
    }
    let last = hay.len() - pat.len();
    let mut i: usize = 0;
    while i <= last
        invariant
            1 <= pat@.len() <= hay@.len(),
            last == hay.len() - pat.len(),
            i <= last + 1,
            forall|j: int| 0 <= j < i ==> !occurs_at(hay@, pat@, j),
        decreases last + 1 - i,
    {
        if occurs_at_exec(hay, pat, i) {
            proof {
                lemma_find_from_some(hay@, pat@, 0, i as int);
            }
            return Some(i);
        }
        proof {
            assert(i < hay.len());
        }
        i = i + 1;
    }
    proof {
        assert forall|j: int| 0 <= j implies !occurs_at(hay@, pat@, j) by {
            if j > last as int {
                assert(j + pat@.len() > hay@.len());
            }
        }
        lemma_find_from_none(hay@, pat@, 0);
    }
    None
}

/// The text with the first occurrence of `pat`, if any, replaced by `w`.
pub open spec fn replaced_first(s: Seq<char>, pat: Seq<char>, w: Seq<char>) -> Seq<char> {
    match find_from(s, pat, 0) {
        Some(i) => s.subrange(0, i) + w + s.skip(i + pat.len()),
        None => s,
    }
}

/// Replaces the first occurrence of `pat` in `s` with `w`, if there is one.
pub fn replace_first(s: &str, pat: &str, w: &str) -> (r: String)
    ensures
        r@ == replaced_first(s@, pat@, w@),
{
    let hay = str_to_chars(s);
    let needle = str_to_chars(pat);
    match find_first(&hay, &needle) {
        Some(i) => {
            proof {
                assert(i + pat@.len() <= hay.len());
            }
            let mut out: Vec<char> = Vec::new();
            let mut k: usize = 0;
            while k < i
                invariant
                    i <= hay@.len(),
                    k <= i,
                    hay@ == s@,
                    out@ == s@.subrange(0, k as int),
                decreases i - k,
            {
                out.push(hay[k]);
                proof {
                    assert(out@ =~= s@.subrange(0, k + 1));
                }
                k = k + 1;
            }
            let mut mid = str_to_chars(w);
            out.append(&mut mid);
            let mut k2: usize = i + needle.len();
            proof {
                assert(s@.subrange(i as int, k2 as int) =~= s@.subrange(
                    i as int,
                    i + pat@.len(),
                ));
                assert(out@ =~= s@.subrange(0, i as int) + w@ + s@.subrange(
                    i + pat@.len(),
                    k2 as int,
                ));
            }
            while k2 < hay.len()
                invariant
                    hay@ == s@,
                    needle@ == pat@,
                    i + pat@.len() <= k2 <= hay@.len(),
                    out@ == s@.subrange(0, i as int) + w@ + s@.subrange(
                        i + pat@.len(),
                        k2 as int,
                    ),
                decreases hay@.len() - k2,
            {
                out.push(hay[k2]);
                proof {
                    assert(out@ =~= s@.subrange(0, i as int) + w@ + s@.subrange(
                        i + pat@.len(),
                        k2 + 1,
                    ));
                }
                k2 = k2 + 1;
            }
            proof {
                assert(s@.subrange(i + pat@.len(), s@.len() as int) =~= s@.skip(i + pat@.len()));
                assert(out@ == replaced_first(s@, pat@, w@));
            }
            chars_to_string(&out)
        },
        None => {
            let r = s.to_owned();
            r
        },
    }
}

/// Whether `prefix` begins the string `s`.
pub fn str_starts_with(s: &str, prefix: &str) -> (r: bool)
    ensures
        r == prefix@.is_prefix_of(s@),
{
    let np = prefix.unicode_len();
    let ns = s.unicode_len();
    if np > ns {
        return false;
    }
    let mut i: usize = 0;
    while i < np
        invariant
            np == prefix@.len(),
            ns == s@.len(),
            np <= ns,
            i <= np,
            forall|j: int| 0 <= j < i ==> prefix@[j] == s@[j],
        decreases np - i,
    {
        if prefix.get_char(i) != s.get_char(i) {
            proof {
                assert(s@.subrange(0, np as int)[i as int] == s@[i as int]);
            }
            return false;
        }
        i = i + 1;
    }
    proof {
        assert(prefix@ =~= s@.subrange(0, np as int));
    }
    true
}

/// Compares two string slices character by character.
pub fn str_eq(a: &str, b: &str) -> (r: bool)
    ensures
        r == (a@ == b@),
{
    let na = a.unicode_len();
    let nb = b.unicode_len();
    if na != nb {
        assert(a@ != b@);
        return false;
    }
    let mut i: usize = 0;
    while i < na
        invariant
            i <= na,
            na == a@.len(),
            na == b@.len(),
            forall|j: int| 0 <= j < i ==> a@[j] == b@[j],
        decreases na - i,
    {
        if a.get_char(i) != b.get_char(i) {
            return false;
        }
        i = i + 1;
    }
    assert(a@ =~= b@);
    true
}

} // verus!
