//! Character and string utilities shared by the lexer, parser and VM.
//!
//! All executable functions here are specified against pure functions over
//! `Seq<char>`, so that the components built on top of them can state their
//! behaviour exactly.

use vstd::prelude::*;
use vstd::string::*;

verus! {

/// The element-wise meaning of a vector's deep view.
pub broadcast proof fn lemma_vec_deep_view<T: DeepView>(v: Vec<T>)
    ensures
        (#[trigger] v.deep_view()).len() == v@.len(),
        forall|i: int| 0 <= i < v@.len() ==> v.deep_view()[i] == v@[i].deep_view(),
{
    assert(v.deep_view() == Seq::new(v@.len(), |i: int| v@[i].deep_view()));
    assert forall|i: int| 0 <= i < v@.len() implies v.deep_view()[i] == v@[i].deep_view() by {
        assert(Seq::new(v@.len(), |j: int| v@[j].deep_view())[i] == v@[i].deep_view());
    }
}

// ---------------------------------------------------------------------------
// Character classes.
//
// The language follows Rust's Unicode character classes for whitespace,
// alphanumeric and alphabetic characters.  Their full definitions span the
// Unicode tables, so they are given names here; every statement the library
// makes about them goes through these names.
// ---------------------------------------------------------------------------

pub uninterp spec fn is_whitespace_char(c: char) -> bool;

pub uninterp spec fn is_alphanumeric_char(c: char) -> bool;

pub uninterp spec fn is_alphabetic_char(c: char) -> bool;

/// Relies on char::is_whitespace: whether `c` has the Unicode whitespace
/// property; the answer depends on `c` alone.
#[verifier::external_body]
pub fn char_is_whitespace(c: char) -> (b: bool)
    ensures
        b == is_whitespace_char(c),
{
    c.is_whitespace()
}

/// Relies on char::is_alphanumeric: whether `c` is a Unicode letter or digit;
/// the answer depends on `c` alone.
#[verifier::external_body]
pub fn char_is_alphanumeric(c: char) -> (b: bool)
    ensures
        b == is_alphanumeric_char(c),
{
    c.is_alphanumeric()
}

/// Relies on char::is_alphabetic: whether `c` is a Unicode letter; the answer
/// depends on `c` alone.  A letter is in particular alphanumeric, as
/// char::is_alphanumeric documents (letter or digit).
#[verifier::external_body]
pub fn char_is_alphabetic(c: char) -> (b: bool)
    ensures
        b == is_alphabetic_char(c),
        b ==> is_alphanumeric_char(c),
{
    c.is_alphabetic()
}

/// Relies on char's ToString::to_string: the string holding exactly `c`.
#[verifier::external_body]
pub fn char_to_string(c: char) -> (s: String)
    ensures
        s@ == seq![c],
{
    c.to_string()
}

// ---------------------------------------------------------------------------
// Conversions between &str / String and Vec<char>.
// ---------------------------------------------------------------------------

/// The characters of `s`, as a vector.
pub fn chars_of(s: &str) -> (v: Vec<char>)
    ensures
        v@ == s@,
{
    let n: usize = s.unicode_len();
    let mut v: Vec<char> = Vec::new();
    let mut i: usize = 0;
    while i < n
        invariant
            i <= n,
            n == s@.len(),
            v@ == s@.take(i as int),
        decreases n - i,
    {
        let c = s.get_char(i);
        v.push(c);
        i = i + 1;
        proof {
            assert(v@ =~= s@.take(i as int));
        }
    }
    proof {
        assert(v@ =~= s@);
    }
    v
}

/// The string holding exactly the characters of `v`.
pub fn string_of(v: &Vec<char>) -> (s: String)
    ensures
        s@ == v@,
{
    let mut s = String::new();
    let mut i: usize = 0;
    while i < v.len()
        invariant
            i <= v.len(),
            s@ == v@.take(i as int),
        decreases v.len() - i,
    {
        let cs = char_to_string(v[i]);
        s.append(cs.as_str());
        i = i + 1;
        proof {
            assert(s@ =~= v@.take(i as int));
        }
    }
    proof {
        assert(s@ =~= v@);
    }
    s
}

/// Character-wise equality of two string slices.
pub fn str_eq(a: &str, b: &str) -> (r: bool)
    ensures
        r == (a@ == b@),
{
    let na: usize = a.unicode_len();
    let nb: usize = b.unicode_len();
    if na != nb {
        return false;
    }
    let mut i: usize = 0;
    while i < na
        invariant
            i <= na,
            na == a@.len(),
            na == b@.len(),
            a@.take(i as int) == b@.take(i as int),
        decreases na - i,
    {
        let ca = a.get_char(i);
        let cb = b.get_char(i);
        if ca != cb {
            proof {
                assert(a@[i as int] != b@[i as int]);
            }
            return false;
        }
        i = i + 1;
        proof {
            assert(a@.take(i as int) =~= b@.take(i as int));
        }
    }
    proof {
        assert(a@.take(na as int) =~= a@);
        assert(b@.take(na as int) =~= b@);
    }
    true
}

/// Character-wise equality of a character vector and a string slice.
pub fn chars_eq_str(v: &Vec<char>, s: &str) -> (r: bool)
    ensures
        r == (v@ == s@),
{
    let n: usize = s.unicode_len();
    if v.len() != n {
        return false;
    }
    let mut i: usize = 0;
    while i < n
        invariant
            i <= n,
            n == v@.len(),
            n == s@.len(),
            v@.take(i as int) == s@.take(i as int),
        decreases n - i,
    {
        let cb = s.get_char(i);
        if v[i] != cb {
            proof {
                assert(v@[i as int] != s@[i as int]);
            }
            return false;
        }
        i = i + 1;
        proof {
            assert(v@.take(i as int) =~= s@.take(i as int));
        }
    }
    proof {
        assert(v@.take(n as int) =~= v@);
        assert(s@.take(n as int) =~= s@);
    }
    true
}

// ---------------------------------------------------------------------------
// Trimming.
// ---------------------------------------------------------------------------

pub open spec fn spec_trim_front(s: Seq<char>) -> Seq<char>
    decreases s.len(),
{
    if s.len() > 0 && is_whitespace_char(s[0]) {
        spec_trim_front(s.drop_first())
    } else {
        s
    }
}

pub open spec fn spec_trim_back(s: Seq<char>) -> Seq<char>
    decreases s.len(),
{
    if s.len() > 0 && is_whitespace_char(s.last()) {
        spec_trim_back(s.drop_last())
    } else {
        s
    }
}

/// What `str::trim` returns: the input without leading and trailing
/// whitespace.
pub open spec fn spec_trim(s: Seq<char>) -> Seq<char> {
    spec_trim_back(spec_trim_front(s))
}

/// `v` without leading and trailing whitespace characters.
pub fn trim_chars(v: &Vec<char>) -> (r: Vec<char>)
    ensures
        r@ == spec_trim(v@),
{
    let mut i: usize = 0;
    proof {
        assert(v@.skip(0) =~= v@);
    }
    while i < v.len() && char_is_whitespace(v[i])
        invariant
            i <= v.len(),
            spec_trim_front(v@) == spec_trim_front(v@.skip(i as int)),
        decreases v.len() - i,
    {
        proof {
            assert(v@.skip(i as int)[0] == v@[i as int]);
            assert(v@.skip(i as int).drop_first() =~= v@.skip(i as int + 1));
        }
        i = i + 1;
    }
    proof {
        // One more unfolding: the remainder starts with a non-whitespace
        // character (or is empty), so trimming its front is the identity.
        if i < v.len() {
            assert(v@.skip(i as int)[0] == v@[i as int]);
        } else {
            assert(v@.skip(i as int).len() == 0);
        }
        assert(spec_trim_front(v@.skip(i as int)) == v@.skip(i as int));
    }
    let mut j: usize = v.len();
    proof {
        assert(v@.skip(i as int).take(j - i as int) =~= v@.skip(i as int));
    }
    while j > i && char_is_whitespace(v[j - 1])
        invariant
            i <= j <= v.len(),
            spec_trim_front(v@) == v@.skip(i as int),
            spec_trim_back(v@.skip(i as int)) == spec_trim_back(
                v@.skip(i as int).take(j - i as int),
            ),
        decreases j,
    {
        proof {
            let t = v@.skip(i as int).take(j - i as int);
            assert(t.last() == v@[j - 1]);
            assert(t.drop_last() =~= v@.skip(i as int).take(j - 1 - i as int));
        }
        j = j - 1;
    }
    proof {
        let t = v@.skip(i as int).take(j - i as int);
        if j > i {
            assert(t.last() == v@[j - 1]);
        }
        assert(spec_trim_back(t) == t);
    }
    let mut r: Vec<char> = Vec::new();
    let mut k: usize = i;
    while k < j
        invariant
            i <= k <= j <= v.len(),
            r@ == v@.subrange(i as int, k as int),
        decreases j - k,
    {
        r.push(v[k]);
        k = k + 1;
        proof {
            assert(r@ =~= v@.subrange(i as int, k as int));
        }
    }
    proof {
        assert(v@.subrange(i as int, j as int) =~= v@.skip(i as int).take(j - i as int));
    }
    r
}

// ---------------------------------------------------------------------------
// Splitting on whitespace.
// ---------------------------------------------------------------------------

/// The length of the maximal run of non-whitespace characters at the front of
/// `s`.
pub open spec fn spec_word_len(s: Seq<char>) -> nat
    decreases s.len(),
{
    if s.len() == 0 || is_whitespace_char(s[0]) {
        0
    } else {
        1 + spec_word_len(s.drop_first())
    }
}

pub proof fn lemma_word_len_le(s: Seq<char>)
    ensures
        spec_word_len(s) <= s.len(),
    decreases s.len(),
{
    if s.len() > 0 && !is_whitespace_char(s[0]) {
        lemma_word_len_le(s.drop_first());
    }
}

#[via_fn]
proof fn spec_split_ws_dec(s: Seq<char>) {
    lemma_word_len_le(s);
}

/// What `str::split_whitespace` returns: the maximal non-whitespace runs of
/// `s`, in order.
pub open spec fn spec_split_ws(s: Seq<char>) -> Seq<Seq<char>>
    decreases s.len(),
        via spec_split_ws_dec
{
    if s.len() == 0 {
        Seq::empty()
    } else if is_whitespace_char(s[0]) {
        spec_split_ws(s.drop_first())
    } else {
        seq![s.take(spec_word_len(s) as int)] + spec_split_ws(s.skip(spec_word_len(s) as int))
    }
}

/// The whitespace-separated words of `v`, as strings.
pub fn split_ws(v: &Vec<char>) -> (r: Vec<String>)
    ensures
        r.deep_view() == spec_split_ws(v@),
{
    let mut r: Vec<String> = Vec::new();
    let mut i: usize = 0;
    proof {
        assert(v@.skip(0) =~= v@);
        assert(Seq::<Seq<char>>::empty() + spec_split_ws(v@) =~= spec_split_ws(v@));
        assert(r.deep_view() =~= Seq::<Seq<char>>::empty());
    }
    while i < v.len()
        invariant
            i <= v.len(),
            spec_split_ws(v@) == r.deep_view() + spec_split_ws(v@.skip(i as int)),
        decreases v.len() - i,
    {
        if char_is_whitespace(v[i]) {
            proof {
                assert(v@.skip(i as int).drop_first() =~= v@.skip(i as int + 1));
            }
            i = i + 1;
        } else {
            let start: usize = i;
            let ghost rest = v@.skip(start as int);
            let mut j: usize = i;
            while j < v.len() && !char_is_whitespace(v[j])
                invariant
                    start <= j <= v.len(),
                    rest == v@.skip(start as int),
                    start < v.len(),
                    !is_whitespace_char(v@[start as int]),
                    spec_word_len(rest) == j - start + spec_word_len(v@.skip(j as int)),
                decreases v.len() - j,
            {
                proof {
                    assert(v@.skip(j as int).drop_first() =~= v@.skip(j as int + 1));
                }
                j = j + 1;
            }
            proof {
                // The word ends at j: either the end of input or whitespace.
                assert(spec_word_len(v@.skip(j as int)) == 0);
                assert(spec_word_len(rest) == j - start);
            }
            let mut w: Vec<char> = Vec::new();
            let mut k: usize = start;
            while k < j
                invariant
                    start <= k <= j <= v.len(),
                    w@ == v@.subrange(start as int, k as int),
                decreases j - k,
            {
                w.push(v[k]);
                k = k + 1;
                proof {
                    assert(w@ =~= v@.subrange(start as int, k as int));
                }
            }
            proof {
                assert(rest.take(spec_word_len(rest) as int) =~= v@.subrange(
                    start as int,
                    j as int,
                ));
                assert(rest.skip(spec_word_len(rest) as int) =~= v@.skip(j as int));
            }
            let ws = string_of(&w);
            r.push(ws);
            proof {
                assert(r.deep_view().drop_last() + seq![v@.subrange(start as int, j as int)]
                    =~= r.deep_view());
            }
            i = j;
        }
    }
    proof {
        assert(v@.skip(i as int) =~= Seq::<char>::empty());
        assert(r.deep_view() + spec_split_ws(v@.skip(i as int)) =~= r.deep_view());
    }
    r
}

// ---------------------------------------------------------------------------
// Joining with single spaces.
// ---------------------------------------------------------------------------

/// What `[..].join(" ")` returns for the given parts.
pub open spec fn spec_join_sp(parts: Seq<Seq<char>>) -> Seq<char>
    decreases parts.len(),
{
    if parts.len() == 0 {
        Seq::empty()
    } else if parts.len() == 1 {
        parts[0]
    } else {
        parts[0] + seq![' '] + spec_join_sp(parts.drop_first())
    }
}

/// The words of `v` from index `start` on, joined with single spaces.
pub fn join_from(v: &Vec<String>, start: usize) -> (r: String)
    requires
        start <= v@.len(),
    ensures
        r@ == spec_join_sp(v.deep_view().skip(start as int)),
{
    let ghost parts = v.deep_view().skip(start as int);
    let n: usize = v.len();
    let mut s = String::new();
    let mut i: usize = start;
    while i < n
        invariant
            start <= i <= n,
            n == v@.len(),
            parts == v.deep_view().skip(start as int),
            v.deep_view().len() == n,
            i == start ==> s@ == Seq::<char>::empty(),
            start < i < n ==> spec_join_sp(parts) == s@ + seq![' '] + spec_join_sp(
                v.deep_view().skip(i as int),
            ),
            i == n && i > start ==> spec_join_sp(parts) == s@,
        decreases n - i,
    {
        if i > start {
            let sp = char_to_string(' ');
            s.append(sp.as_str());
        }
        s.append(v[i].as_str());
        proof {
            assert(v.deep_view()[i as int] == v[i as int]@);
            assert(v.deep_view().skip(i as int).drop_first() =~= v.deep_view().skip(i as int + 1));
            if i == start {
                if i + 1 < n {
                    assert(spec_join_sp(parts) == parts[0] + seq![' '] + spec_join_sp(
                        parts.drop_first(),
                    ));
                } else {
                    assert(parts.len() == 1);
                }
            }
        }
        i = i + 1;
    }
    proof {
        if start == n {
            assert(parts =~= Seq::<Seq<char>>::empty());
        }
    }
    s
}

// ---------------------------------------------------------------------------
// Substring search and replacement.
// ---------------------------------------------------------------------------

/// Whether `sub` occurs in `s` starting at index `i`.
pub open spec fn spec_match_at(s: Seq<char>, sub: Seq<char>, i: int) -> bool {
    0 <= i && i + sub.len() <= s.len() && s.subrange(i, i + sub.len() as int) == sub
}

/// Whether `sub` occurs anywhere in `s`.
pub open spec fn spec_contains(s: Seq<char>, sub: Seq<char>) -> bool {
    exists|i: int| spec_match_at(s, sub, i)
}

/// Whether `c` occurs in `s`.
pub open spec fn spec_contains_char(s: Seq<char>, c: char) -> bool {
    exists|i: int| 0 <= i < s.len() && s[i] == c
}

fn match_at(v: &Vec<char>, pat: &Vec<char>, i: usize) -> (b: bool)
    requires
        i <= v@.len(),
        pat@.len() <= v@.len() - i,
    ensures
        b == spec_match_at(v@, pat@, i as int),
{
    let n: usize = v.len();
    let mut j: usize = 0;
    while j < pat.len()
        invariant
            j <= pat@.len(),
            i + pat@.len() <= v@.len(),
            n == v@.len(),
            v@.subrange(i as int, i as int + j as int) == pat@.take(j as int),
        decreases pat.len() - j,
    {
        if v[i + j] != pat[j] {
            proof {
                assert(v@[i as int + j as int] != pat@[j as int]);
                assert(v@.subrange(i as int, i as int + pat@.len() as int)[j as int] == v@[
                    i as int + j as int
                ]);
            }
            return false;
        }
        j = j + 1;
        proof {
            assert(v@.subrange(i as int, i as int + j as int) =~= pat@.take(j as int));
        }
    }
    proof {
        assert(v@.subrange(i as int, i as int + pat@.len() as int) =~= pat@);
    }
    true
}

/// Whether `sub` occurs in `v` as a contiguous substring.
pub fn contains_chars(v: &Vec<char>, sub: &Vec<char>) -> (b: bool)
    ensures
        b == spec_contains(v@, sub@),
{
    if sub.len() > v.len() {
        proof {
            assert(forall|i: int| !spec_match_at(v@, sub@, i));
        }
        return false;
    }
    if sub.len() == 0 {
        proof {
            assert(v@.subrange(0, 0) =~= sub@);
            assert(spec_match_at(v@, sub@, 0));
        }
        return true;
    }
    let mut i: usize = 0;
    while sub.len() <= v.len() - i && i <= v.len()
        invariant
            1 <= sub@.len() <= v@.len(),
            i <= v@.len(),
            forall|k: int| 0 <= k < i ==> !spec_match_at(v@, sub@, k),
        decreases v.len() - i,
    {
        if match_at(v, sub, i) {
            return true;
        }
        proof {
            assert(!spec_match_at(v@, sub@, i as int));
        }
        i = i + 1;
    }
    proof {
        assert(forall|k: int| !spec_match_at(v@, sub@, k));
    }
    false
}

/// Whether `c` occurs in `v`.
pub fn contains_char(v: &Vec<char>, c: char) -> (b: bool)
    ensures
        b == spec_contains_char(v@, c),
{
    let mut i: usize = 0;
    while i < v.len()
        invariant
            i <= v@.len(),
            forall|k: int| 0 <= k < i ==> v@[k] != c,
        decreases v.len() - i,
    {
        if v[i] == c {
            return true;
        }
        i = i + 1;
    }
    false
}

/// The index of the first occurrence of `c` in `s`, or `s.len()` if there is
/// none.
pub open spec fn spec_first_idx(s: Seq<char>, c: char) -> nat
    decreases s.len(),
{
    if s.len() == 0 {
        0
    } else if s[0] == c {
        0
    } else {
        1 + spec_first_idx(s.drop_first(), c)
    }
}

/// The first index of `c` in `v`, or the length of `v` when `c` is absent.
pub fn find_char(v: &Vec<char>, c: char) -> (r: usize)
    ensures
        r as nat == spec_first_idx(v@, c),
        r <= v@.len(),
        r < v@.len() ==> v@[r as int] == c,
        forall|k: int| 0 <= k < r ==> v@[k] != c,
{
    let mut i: usize = 0;
    proof {
        assert(v@.skip(0) =~= v@);
    }
    while i < v.len()
        invariant
            i <= v@.len(),
            spec_first_idx(v@, c) == i + spec_first_idx(v@.skip(i as int), c),
            forall|k: int| 0 <= k < i ==> v@[k] != c,
        decreases v.len() - i,
    {
        proof {
            assert(v@.skip(i as int)[0] == v@[i as int]);
        }
        if v[i] == c {
            proof {
                assert(spec_first_idx(v@.skip(i as int), c) == 0);
            }
            return i;
        }
        proof {
            assert(v@.skip(i as int).drop_first() =~= v@.skip(i as int + 1));
        }
        i = i + 1;
    }
    proof {
        assert(v@.skip(i as int) =~= Seq::<char>::empty());
    }
    i
}

/// What `str::replace` returns: `s` with every occurrence of `pat` replaced
/// by `rep`, scanning left to right without rescanning replacements.
pub open spec fn spec_replace(s: Seq<char>, pat: Seq<char>, rep: Seq<char>) -> Seq<char>
    decreases s.len(),
{
    if pat.len() == 0 || s.len() < pat.len() {
        s
    } else if s.take(pat.len() as int) == pat {
        rep + spec_replace(s.skip(pat.len() as int), pat, rep)
    } else {
        seq![s[0]] + spec_replace(s.drop_first(), pat, rep)
    }
}

/// `v` with every occurrence of `pat` replaced by `rep`.
pub fn replace_chars(v: &Vec<char>, pat: &Vec<char>, rep: &Vec<char>) -> (r: Vec<char>)
    ensures
        r@ == spec_replace(v@, pat@, rep@),
{
    let mut r: Vec<char> = Vec::new();
    if pat.len() == 0 {
        let mut k: usize = 0;
        while k < v.len()
            invariant
                k <= v@.len(),
                r@ == v@.take(k as int),
            decreases v.len() - k,
        {
            r.push(v[k]);
            k = k + 1;
            proof {
                assert(r@ =~= v@.take(k as int));
            }
        }
        proof {
            assert(r@ =~= v@);
        }
        return r;
    }
    let mut i: usize = 0;
    proof {
        assert(v@.skip(0) =~= v@);
    }
    while v.len() - i >= pat.len() && i <= v.len()
        invariant
            pat@.len() >= 1,
            i <= v@.len(),
            spec_replace(v@, pat@, rep@) == r@ + spec_replace(v@.skip(i as int), pat@, rep@),
        decreases v.len() - i,
    {
        let ghost tail = v@.skip(i as int);
        if match_at(v, pat, i) {
            proof {
                assert(tail.take(pat@.len() as int) =~= v@.subrange(
                    i as int,
                    i as int + pat@.len() as int,
                ));
                assert(tail.skip(pat@.len() as int) =~= v@.skip(i as int + pat@.len() as int));
            }
            let mut k: usize = 0;
            let ghost r0 = r@;
            while k < rep.len()
                invariant
                    k <= rep@.len(),
                    r@ == r0 + rep@.take(k as int),
                decreases rep.len() - k,
            {
                r.push(rep[k]);
                k = k + 1;
                proof {
                    assert(r@ =~= r0 + rep@.take(k as int));
                }
            }
            proof {
                assert(r0 + rep@.take(rep@.len() as int) =~= r0 + rep@);
            }
            i = i + pat.len();
        } else {
            proof {
                assert(tail.take(pat@.len() as int) =~= v@.subrange(
                    i as int,
                    i as int + pat@.len() as int,
                ));
                assert(tail.drop_first() =~= v@.skip(i as int + 1));
                assert(seq![tail[0]] =~= seq![v@[i as int]]);
            }
            r.push(v[i]);
            i = i + 1;
        }
    }
    let ghost done = i;
    proof {
        assert(spec_replace(v@.skip(done as int), pat@, rep@) == v@.skip(done as int));
    }
    let mut k: usize = i;
    let ghost r1 = r@;
    while k < v.len()
        invariant
            done <= k <= v@.len(),
            r@ == r1 + v@.subrange(done as int, k as int),
        decreases v.len() - k,
    {
        r.push(v[k]);
        k = k + 1;
        proof {
            assert(r@ =~= r1 + v@.subrange(done as int, k as int));
        }
    }
    proof {
        assert(v@.subrange(done as int, v@.len() as int) =~= v@.skip(done as int));
    }
    r
}

// ---------------------------------------------------------------------------
// ASCII upper-casing (used for case-insensitive keyword lookup).
// ---------------------------------------------------------------------------

/// `c` with an ASCII lower-case letter mapped to its upper-case form.
pub open spec fn spec_upper_char(c: char) -> char {
    if 97 <= c as u32 && c as u32 <= 122 {
        (((c as u32) - 32) as u8) as char
    } else {
        c
    }
}

pub open spec fn spec_upper(s: Seq<char>) -> Seq<char> {
    Seq::new(s.len(), |i: int| spec_upper_char(s[i]))
}

/// `v` with ASCII lower-case letters mapped to upper case.
pub fn upper_chars(v: &Vec<char>) -> (r: Vec<char>)
    ensures
        r@ == spec_upper(v@),
{
    let mut r: Vec<char> = Vec::new();
    let mut i: usize = 0;
    while i < v.len()
        invariant
            i <= v@.len(),
            r@ == spec_upper(v@).take(i as int),
        decreases v.len() - i,
    {
        let c = v[i];
        let u: u32 = c as u32;
        let up: char = if 97 <= u && u <= 122 {
            ((u - 32) as u8) as char
        } else {
            c
        };
        proof {
            assert(up == spec_upper_char(v@[i as int]));
        }
        r.push(up);
        i = i + 1;
        proof {
            assert(r@ =~= spec_upper(v@).take(i as int));
        }
    }
    proof {
        assert(r@ =~= spec_upper(v@));
    }
    r
}

// ---------------------------------------------------------------------------
// Decimal rendering of machine integers.
// ---------------------------------------------------------------------------

pub open spec fn spec_digit(d: nat) -> char {
    ((48 + d) as u8) as char
}

/// The decimal digits of `n`, most significant first.
pub open spec fn spec_decimal(n: nat) -> Seq<char>
    decreases n,
{
    if n < 10 {
        seq![spec_digit(n)]
    } else {
        spec_decimal(n / 10) + seq![spec_digit(n % 10)]
    }
}

/// Appends the decimal digits of `n` to `out`.
pub fn push_decimal(n: usize, out: &mut Vec<char>)
    ensures
        final(out)@ == old(out)@ + spec_decimal(n as nat),
    decreases n,
{
    if n < 10 {
        let d: u8 = (48 + (n as u8));
        out.push(d as char);
        proof {
            assert(out@ =~= old(out)@ + spec_decimal(n as nat));
        }
    } else {
        push_decimal(n / 10, out);
        let d: u8 = (48 + ((n % 10) as u8));
        out.push(d as char);
        proof {
            assert(out@ =~= old(out)@ + spec_decimal(n as nat));
        }
    }
}

/// The decimal rendering of `n` as a string.
pub fn decimal_string(n: usize) -> (s: String)
    ensures
        s@ == spec_decimal(n as nat),
{
    let mut v: Vec<char> = Vec::new();
    push_decimal(n, &mut v);
    string_of(&v)
}

// ---------------------------------------------------------------------------
// Splitting a script into lines.
// ---------------------------------------------------------------------------

/// A chunk between newlines, with one trailing carriage return removed, as
/// `str::lines` yields it.
pub open spec fn spec_strip_cr(t: Seq<char>) -> Seq<char> {
    if t.len() > 0 && t.last() == '\r' {
        t.drop_last()
    } else {
        t
    }
}

#[via_fn]
proof fn spec_lines_dec(s: Seq<char>) {
    lemma_first_idx_le_len(s, '\n');
}

proof fn lemma_first_idx_le_len(s: Seq<char>, c: char)
    ensures
        spec_first_idx(s, c) <= s.len(),
    decreases s.len(),
{
    if s.len() > 0 && s[0] != c {
        lemma_first_idx_le_len(s.drop_first(), c);
    }
}

/// What `str::lines` yields: the chunks between newlines, without a
/// trailing empty chunk, each stripped of one trailing carriage return.
pub open spec fn spec_lines(s: Seq<char>) -> Seq<Seq<char>>
    decreases s.len(),
        via spec_lines_dec
{
    if s.len() == 0 {
        Seq::empty()
    } else {
        let k = spec_first_idx(s, '\n') as int;
        if k == s.len() {
            seq![spec_strip_cr(s)]
        } else {
            seq![spec_strip_cr(s.take(k))] + spec_lines(s.skip(k + 1))
        }
    }
}

/// The lines of `v`, split on newlines as `str::lines` splits them.
#[verifier::loop_isolation(false)]
pub fn split_lines(v: &Vec<char>) -> (r: Vec<String>)
    ensures
        r.deep_view() == spec_lines(v@),
{
    broadcast use lemma_vec_deep_view;

    let mut r: Vec<String> = Vec::new();
    let mut pos: usize = 0;
    proof {
        assert(v@.skip(0) =~= v@);
        assert(r.deep_view() =~= Seq::<Seq<char>>::empty());
        assert(r.deep_view() + spec_lines(v@) =~= spec_lines(v@));
    }
    while pos < v.len()
        invariant
            pos <= v@.len(),
            spec_lines(v@) == r.deep_view() + spec_lines(v@.skip(pos as int)),
        decreases v.len() - pos,
    {
        let ghost rest = v@.skip(pos as int);
        // Find the next newline.
        let mut k: usize = pos;
        while k < v.len() && v[k] != '\n'
            invariant
                pos <= k <= v@.len(),
                forall|j: int| pos <= j < k ==> v@[j] != '\n',
            decreases v.len() - k,
        {
            k = k + 1;
        }
        proof {
            lemma_first_idx_at(rest, '\n', k - pos as int);
        }
        // The chunk is v[pos..k], with one trailing '\r' removed.
        let mut endx: usize = k;
        if endx > pos && v[endx - 1] == '\r' {
            endx = endx - 1;
        }
        let mut chunk: Vec<char> = Vec::new();
        let mut j: usize = pos;
        while j < endx
            invariant
                pos <= j <= endx <= v@.len(),
                chunk@ == v@.subrange(pos as int, j as int),
            decreases endx - j,
        {
            chunk.push(v[j]);
            j = j + 1;
            proof {
                assert(chunk@ =~= v@.subrange(pos as int, j as int));
            }
        }
        proof {
            assert(rest.take(k - pos as int) =~= v@.subrange(pos as int, k as int));
            if k > pos && v@[k - 1] == '\r' {
                assert(rest.take(k - pos as int).drop_last() =~= v@.subrange(
                    pos as int,
                    k - 1 as int,
                ));
            }
            assert(chunk@ =~= spec_strip_cr(rest.take(k - pos as int)));
            if k == v@.len() {
                assert(rest.take(k - pos as int) =~= rest);
            }
        }
        let cs = string_of(&chunk);
        r.push(cs);
        if k == v.len() {
            proof {
                assert(v@.skip(k as int) =~= Seq::<char>::empty());
                assert(r.deep_view() =~= r.deep_view().drop_last() + seq![chunk@]);
                assert(r.deep_view() + spec_lines(v@.skip(v@.len() as int)) =~= r.deep_view());
            }
            return r;
        } else {
            proof {
                assert(rest.skip(k - pos as int + 1) =~= v@.skip(k + 1));
                assert(r.deep_view() =~= r.deep_view().drop_last() + seq![chunk@]);
                assert(r.deep_view().drop_last() + (seq![chunk@] + spec_lines(v@.skip(k + 1)))
                    =~= r.deep_view() + spec_lines(v@.skip(k + 1)));
            }
            pos = k + 1;
        }
    }
    proof {
        assert(v@.skip(pos as int) =~= Seq::<char>::empty());
        assert(r.deep_view() + spec_lines(v@.skip(pos as int)) =~= r.deep_view());
    }
    r
}

/// Pins the first occurrence of `c` in `s` at offset `d`.
proof fn lemma_first_idx_at(s: Seq<char>, c: char, d: int)
    requires
        0 <= d <= s.len(),
        forall|j: int| 0 <= j < d ==> s[j] != c,
        d < s.len() ==> s[d] == c,
    ensures
        spec_first_idx(s, c) == d,
    decreases d,
{
    if d == 0 {
    } else {
        assert(s[0] != c);
        lemma_first_idx_at(s.drop_first(), c, d - 1);
    }
}

// ---------------------------------------------------------------------------
// Facts about trimming and replacement used by the library's laws.
// ---------------------------------------------------------------------------

pub proof fn lemma_trim_front_first(s: Seq<char>)
    ensures
        spec_trim_front(s).len() > 0 ==> !is_whitespace_char(spec_trim_front(s)[0]),
    decreases s.len(),
{
    if s.len() > 0 && is_whitespace_char(s[0]) {
        lemma_trim_front_first(s.drop_first());
    }
}

pub proof fn lemma_trim_back_prefix(s: Seq<char>)
    ensures
        exists|k: int| 0 <= k <= s.len() && spec_trim_back(s) == s.take(k),
    decreases s.len(),
{
    if s.len() > 0 && is_whitespace_char(s.last()) {
        lemma_trim_back_prefix(s.drop_last());
        let k = choose|k: int|
            0 <= k <= s.drop_last().len() && spec_trim_back(s.drop_last()) == s.drop_last().take(
                k,
            );
        assert(s.drop_last().take(k) =~= s.take(k));
    } else {
        assert(spec_trim_back(s) =~= s.take(s.len() as int));
    }
}

pub proof fn lemma_trim_back_last(s: Seq<char>)
    ensures
        spec_trim_back(s).len() > 0 ==> !is_whitespace_char(spec_trim_back(s).last()),
    decreases s.len(),
{
    if s.len() > 0 && is_whitespace_char(s.last()) {
        lemma_trim_back_last(s.drop_last());
    }
}

/// Trimming is idempotent.
pub proof fn lemma_trim_idem(s: Seq<char>)
    ensures
        spec_trim(spec_trim(s)) == spec_trim(s),
{
    let f = spec_trim_front(s);
    let t = spec_trim_back(f);
    lemma_trim_front_first(s);
    lemma_trim_back_prefix(f);
    let k = choose|k: int| 0 <= k <= f.len() && t == f.take(k);
    if t.len() > 0 {
        assert(t[0] == f[0]);
    }
    assert(spec_trim_front(t) == t);
    lemma_trim_back_last(f);
    assert(spec_trim_back(t) == t);
}

/// Replacing a pattern that starts with a character absent from the text
/// leaves the text unchanged.
pub proof fn lemma_replace_absent(s: Seq<char>, pat: Seq<char>, rep: Seq<char>)
    requires
        pat.len() >= 1,
        forall|i: int| 0 <= i < s.len() ==> s[i] != pat[0],
    ensures
        spec_replace(s, pat, rep) == s,
    decreases s.len(),
{
    if s.len() < pat.len() {
    } else {
        if s.take(pat.len() as int) == pat {
            assert(s.take(pat.len() as int)[0] == s[0]);
            assert(false);
        }
        assert forall|i: int| 0 <= i < s.drop_first().len() implies s.drop_first()[i]
            != pat[0] by {
            assert(s.drop_first()[i] == s[i + 1]);
        }
        lemma_replace_absent(s.drop_first(), pat, rep);
        assert(seq![s[0]] + s.drop_first() =~= s);
    }
}

} // verus!
