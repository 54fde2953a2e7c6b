//! Small verified utilities over strings, specified against the
//! `Seq<char>` view that Verus gives to `&str` and `String`.

use vstd::prelude::*;
use vstd::string::StrSliceExecFns;
use vstd::string::StringExecFns;

verus! {

// ---------------------------------------------------------------------------
// Character classes
// ---------------------------------------------------------------------------

/// Whitespace characters removed by `trim`.
pub open spec fn is_space(c: char) -> bool {
    c == ' ' || c == '\t' || c == '\n' || c == '\r'
}

/// ASCII decimal digit.
pub open spec fn is_digit(c: char) -> bool {
    '0' <= c && c <= '9'
}

/// Numeric value of an ASCII digit.
pub open spec fn digit_val(c: char) -> int {
    c as int - '0' as int
}

/// ASCII letter or digit.
pub open spec fn is_ascii_alnum(c: char) -> bool {
    ('a' <= c && c <= 'z') || ('A' <= c && c <= 'Z') || is_digit(c)
}

/// ASCII lowercasing of a single character; other characters are unchanged.
pub open spec fn lower_char(c: char) -> char {
    if 'A' <= c && c <= 'Z' {
        (c as u32 + 32) as char
    } else {
        c
    }
}

/// ASCII lowercasing of a character sequence.
pub open spec fn spec_lower(s: Seq<char>) -> Seq<char> {
    Seq::new(s.len(), |i: int| lower_char(s[i]))
}

// ---------------------------------------------------------------------------
// Finding a character
// ---------------------------------------------------------------------------

/// Index of the first occurrence of `c` in `s`, or `s.len()` if absent.
pub open spec fn spec_find(s: Seq<char>, c: char) -> int
    decreases s.len(),
{
    if s.len() == 0 {
        0
    } else if s[0] == c {
        0
    } else {
        1 + spec_find(s.subrange(1, s.len() as int), c)
    }
}

pub proof fn lemma_find_props(s: Seq<char>, c: char)
    ensures
        0 <= spec_find(s, c) <= s.len(),
        spec_find(s, c) < s.len() ==> s[spec_find(s, c)] == c,
        forall|j: int| 0 <= j < spec_find(s, c) ==> s[j] != c,
    decreases s.len(),
{
    if s.len() != 0 && s[0] != c {
        let t = s.subrange(1, s.len() as int);
        lemma_find_props(t, c);
        assert forall|j: int| 0 <= j < spec_find(s, c) implies s[j] != c by {
            if j > 0 {
                assert(t[j - 1] != c);
            }
        }
    }
}

pub proof fn lemma_find_is(s: Seq<char>, c: char, i: int)
    requires
        0 <= i <= s.len(),
        forall|j: int| 0 <= j < i ==> s[j] != c,
        i < s.len() ==> s[i] == c,
    ensures
        spec_find(s, c) == i,
    decreases s.len(),
{
    if s.len() != 0 && s[0] != c {
        let t = s.subrange(1, s.len() as int);
        assert(i >= 1);
        assert forall|j: int| 0 <= j < i - 1 implies t[j] != c by {
            assert(t[j] == s[j + 1]);
        }
        lemma_find_is(t, c, i - 1);
    }
}

/// Index of the first occurrence of `c` in `s`, or the length of `s` if absent.
pub fn find_char(s: &str, c: char) -> (r: usize)
    ensures
        r == spec_find(s@, c),
        r <= s@.len(),
{
    let n = s.unicode_len();
    let mut i: usize = 0;
    while i < n
        invariant
            n == s@.len(),
            0 <= i <= n,
            forall|j: int| 0 <= j < i ==> s@[j] != c,
        decreases n - i,
    {
        if s.get_char(i) == c {
            proof {
                lemma_find_is(s@, c, i as int);
            }
            return i;
        }
        i = i + 1;
    }
    proof {
        lemma_find_is(s@, c, n as int);
    }
    n
}

// ---------------------------------------------------------------------------
// Prefixes, substring search
// ---------------------------------------------------------------------------

/// `p` is a prefix of `s`.
pub open spec fn spec_starts_with(s: Seq<char>, p: Seq<char>) -> bool {
    p.len() <= s.len() && s.subrange(0, p.len() as int) == p
}

/// `p` occurs in `s` at position `j`.
pub open spec fn occurs_at(s: Seq<char>, p: Seq<char>, j: int) -> bool {
    0 <= j && j + p.len() <= s.len() && s.subrange(j, j + p.len() as int) == p
}

/// Index of the first occurrence of `p` in `s`; `s.len()` if there is none.
pub open spec fn spec_find_sub(s: Seq<char>, p: Seq<char>) -> int
    decreases s.len(),
{
    if spec_starts_with(s, p) {
        0
    } else if s.len() == 0 {
        0
    } else {
        1 + spec_find_sub(s.subrange(1, s.len() as int), p)
    }
}

/// `p` occurs somewhere in `s`.
pub open spec fn spec_contains(s: Seq<char>, p: Seq<char>) -> bool {
    spec_find_sub(s, p) + p.len() <= s.len()
}

pub proof fn lemma_occurs_shift(s: Seq<char>, p: Seq<char>, j: int)
    requires
        s.len() > 0,
        1 <= j,
    ensures
        occurs_at(s, p, j) <==> occurs_at(s.subrange(1, s.len() as int), p, j - 1),
{
    let t = s.subrange(1, s.len() as int);
    if occurs_at(s, p, j) {
        assert(t.subrange(j - 1, j - 1 + p.len() as int) =~= s.subrange(j, j + p.len() as int));
    }
    if occurs_at(t, p, j - 1) {
        assert(s.subrange(j, j + p.len() as int) =~= t.subrange(j - 1, j - 1 + p.len() as int));
    }
}

pub proof fn lemma_find_sub_props(s: Seq<char>, p: Seq<char>)
    ensures
        0 <= spec_find_sub(s, p) <= s.len(),
        spec_contains(s, p) ==> occurs_at(s, p, spec_find_sub(s, p)),
        forall|j: int| 0 <= j < spec_find_sub(s, p) ==> !occurs_at(s, p, j),
        !spec_contains(s, p) ==> forall|j: int| !occurs_at(s, p, j),
    decreases s.len(),
{
    if spec_starts_with(s, p) {
        assert(occurs_at(s, p, 0));
    } else if s.len() == 0 {
        // p cannot be empty here, else s would start with it
        assert(p.len() > 0) by {
            if p.len() == 0 {
                assert(s.subrange(0, 0) =~= p);
            }
        }
        assert forall|j: int| !occurs_at(s, p, j) by {}
    } else {
        let t = s.subrange(1, s.len() as int);
        lemma_find_sub_props(t, p);
        let f = spec_find_sub(s, p);
        assert(f == 1 + spec_find_sub(t, p));
        if spec_contains(s, p) {
            assert(spec_contains(t, p));
            lemma_occurs_shift(s, p, f);
        }
        assert forall|j: int| 0 <= j < f implies !occurs_at(s, p, j) by {
            if j == 0 {
                assert(!spec_starts_with(s, p));
                if occurs_at(s, p, 0) {
                    assert(s.subrange(0, p.len() as int) == p);
                }
            } else {
                lemma_occurs_shift(s, p, j);
                assert(!occurs_at(t, p, j - 1));
            }
        }
        if !spec_contains(s, p) {
            assert(!spec_contains(t, p));
            assert forall|j: int| !occurs_at(s, p, j) by {
                if j >= 1 {
                    lemma_occurs_shift(s, p, j);
                } else if j == 0 {
                    if occurs_at(s, p, 0) {
                        assert(spec_starts_with(s, p));
                    }
                }
            }
        }
    }
}

pub proof fn lemma_find_sub_is(s: Seq<char>, p: Seq<char>, i: int)
    requires
        p.len() >= 1,
        0 <= i <= s.len(),
        forall|j: int| 0 <= j < i ==> !occurs_at(s, p, j),
        i < s.len() ==> occurs_at(s, p, i),
        i == s.len() ==> forall|j: int| !occurs_at(s, p, j),
    ensures
        spec_find_sub(s, p) == i,
{
    lemma_find_sub_props(s, p);
    let f = spec_find_sub(s, p);
    if i < s.len() {
        assert(occurs_at(s, p, i));
        assert(spec_contains(s, p)) by {
            if !spec_contains(s, p) {
                assert(!occurs_at(s, p, i));
            }
        }
        assert(occurs_at(s, p, f));
        if f < i {
            assert(!occurs_at(s, p, f));
        }
        if i < f {
            assert(!occurs_at(s, p, i));
        }
    } else {
        if spec_contains(s, p) {
            assert(occurs_at(s, p, f));
            assert(!occurs_at(s, p, f));
        }
        assert(f + p.len() > s.len());
        assert(f <= s.len());
        lemma_find_sub_at_end(s, p);
    }
}

/// For a pattern that does not occur, `spec_find_sub` lands exactly on `s.len()`.
proof fn lemma_find_sub_at_end(s: Seq<char>, p: Seq<char>)
    requires
        p.len() >= 1,
        !spec_contains(s, p),
    ensures
        spec_find_sub(s, p) == s.len(),
    decreases s.len(),
{
    if spec_starts_with(s, p) {
        assert(occurs_at(s, p, 0));
        lemma_find_sub_props(s, p);
    } else if s.len() == 0 {
    } else {
        let t = s.subrange(1, s.len() as int);
        assert(!spec_contains(t, p)) by {
            lemma_find_sub_props(t, p);
            if spec_contains(t, p) {
                lemma_occurs_shift(s, p, spec_find_sub(t, p) + 1);
                lemma_find_sub_props(s, p);
                assert(occurs_at(s, p, spec_find_sub(t, p) + 1));
                assert(spec_find_sub(s, p) <= spec_find_sub(t, p) + 1) by {
                    if spec_find_sub(s, p) > spec_find_sub(t, p) + 1 {
                        assert(!occurs_at(s, p, spec_find_sub(t, p) + 1));
                    }
                }
            }
        }
        lemma_find_sub_at_end(t, p);
    }
}

/// Does `s` begin with `p`?
pub fn starts_with(s: &str, p: &str) -> (r: bool)
    ensures
        r == spec_starts_with(s@, p@),
{
    let sn = s.unicode_len();
    let pn = p.unicode_len();
    if pn > sn {
        return false;
    }
    let mut i: usize = 0;
    while i < pn
        invariant
            sn == s@.len(),
            pn == p@.len(),
            pn <= sn,
            0 <= i <= pn,
            forall|j: int| 0 <= j < i ==> s@[j] == p@[j],
        decreases pn - i,
    {
        if s.get_char(i) != p.get_char(i) {
            assert(s@.subrange(0, p@.len() as int)[i as int] != p@[i as int]);
            return false;
        }
        i = i + 1;
    }
    assert(s@.subrange(0, p@.len() as int) =~= p@);
    true
}

/// Are two strings equal, character for character?
pub fn str_eq(a: &str, b: &str) -> (r: bool)
    ensures
        r == (a@ == b@),
{
    let an = a.unicode_len();
    let bn = b.unicode_len();
    if an != bn {
        return false;
    }
    let mut i: usize = 0;
    while i < an
        invariant
            an == a@.len(),
            bn == b@.len(),
            an == bn,
            0 <= i <= an,
            forall|j: int| 0 <= j < i ==> a@[j] == b@[j],
        decreases an - i,
    {
        if a.get_char(i) != b.get_char(i) {
            return false;
        }
        i = i + 1;
    }
    assert(a@ =~= b@);
    true
}

/// Does `p` occur at position `j` of `s`?
fn matches_at(s: &str, p: &str, j: usize) -> (r: bool)
    requires
        j + p@.len() <= s@.len(),
        s@.len() <= usize::MAX,
    ensures
        r == occurs_at(s@, p@, j as int),
{
    let pn = p.unicode_len();
    let mut i: usize = 0;
    while i < pn
        invariant
            pn == p@.len(),
            j + pn <= s@.len(),
            s@.len() <= usize::MAX,
            0 <= i <= pn,
            forall|k: int| 0 <= k < i ==> s@[j + k] == p@[k],
        decreases pn - i,
    {
        if s.get_char(j + i) != p.get_char(i) {
            assert(s@.subrange(j as int, j + p@.len() as int)[i as int] != p@[i as int]);
            return false;
        }
        i = i + 1;
    }
    assert(s@.subrange(j as int, j + p@.len() as int) =~= p@);
    true
}

/// Index of the first occurrence of `p` in `s`, or the length of `s` if absent.
pub fn find_sub(s: &str, p: &str) -> (r: usize)
    requires
        p@.len() >= 1,
    ensures
        r == spec_find_sub(s@, p@),
        r <= s@.len(),
{
    let sn = s.unicode_len();
    let pn = p.unicode_len();
    if pn > sn {
        proof {
            lemma_find_sub_is(s@, p@, sn as int);
        }
        return sn;
    }
    let mut j: usize = 0;
    while j <= sn - pn
        invariant
            sn == s@.len(),
            pn == p@.len(),
            1 <= pn <= sn,
            0 <= j <= sn - pn + 1,
            forall|k: int| 0 <= k < j ==> !occurs_at(s@, p@, k),
        decreases sn - j,
    {
        if matches_at(s, p, j) {
            proof {
                lemma_find_sub_is(s@, p@, j as int);
            }
            return j;
        }
        j = j + 1;
    }
    proof {
        assert forall|k: int| !occurs_at(s@, p@, k) by {
            if 0 <= k && k + p@.len() <= s@.len() {
                assert(k < j);
            }
        }
        lemma_find_sub_is(s@, p@, sn as int);
    }
    sn
}

/// Does `p` occur anywhere in `s`?
pub fn contains_sub(s: &str, p: &str) -> (r: bool)
    requires
        p@.len() >= 1,
    ensures
        r == spec_contains(s@, p@),
{
    let sn = s.unicode_len();
    let pn = p.unicode_len();
    if pn > sn {
        proof {
            lemma_find_props_contains_none(s@, p@);
        }
        return false;
    }
    let r = find_sub(s, p);
    r <= sn - pn
}

proof fn lemma_find_props_contains_none(s: Seq<char>, p: Seq<char>)
    requires
        p.len() > s.len(),
    ensures
        !spec_contains(s, p),
{
    lemma_find_sub_props(s, p);
}

// ---------------------------------------------------------------------------
// Trimming
// ---------------------------------------------------------------------------

pub open spec fn spec_trim_start(s: Seq<char>) -> Seq<char>
    decreases s.len(),
{
    if s.len() > 0 && is_space(s[0]) {
        spec_trim_start(s.subrange(1, s.len() as int))
    } else {
        s
    }
}

pub open spec fn spec_trim_end(s: Seq<char>) -> Seq<char>
    decreases s.len(),
{
    if s.len() > 0 && is_space(s[s.len() - 1]) {
        spec_trim_end(s.subrange(0, s.len() - 1))
    } else {
        s
    }
}

/// `s` with leading and trailing whitespace removed.
pub open spec fn spec_trim(s: Seq<char>) -> Seq<char> {
    spec_trim_end(spec_trim_start(s))
}

proof fn lemma_trim_start_at(s: Seq<char>, a: int)
    requires
        0 <= a <= s.len(),
        forall|j: int| 0 <= j < a ==> is_space(s[j]),
        a < s.len() ==> !is_space(s[a]),
    ensures
        spec_trim_start(s) =~= s.subrange(a, s.len() as int),
    decreases s.len(),
{
    if s.len() > 0 && is_space(s[0]) {
        let t = s.subrange(1, s.len() as int);
        assert(a >= 1);
        assert forall|j: int| 0 <= j < a - 1 implies is_space(t[j]) by {
            assert(t[j] == s[j + 1]);
        }
        lemma_trim_start_at(t, a - 1);
        assert(t.subrange(a - 1, t.len() as int) =~= s.subrange(a, s.len() as int));
    } else {
        assert(a == 0);
        assert(s.subrange(0, s.len() as int) =~= s);
    }
}

proof fn lemma_trim_end_at(s: Seq<char>, b: int)
    requires
        0 <= b <= s.len(),
        forall|j: int| b <= j < s.len() ==> is_space(s[j]),
        b > 0 ==> !is_space(s[b - 1]),
    ensures
        spec_trim_end(s) =~= s.subrange(0, b),
    decreases s.len(),
{
    if s.len() > 0 && is_space(s[s.len() - 1]) {
        let t = s.subrange(0, s.len() - 1);
        assert(b <= s.len() - 1);
        lemma_trim_end_at(t, b);
        assert(t.subrange(0, b) =~= s.subrange(0, b));
    } else {
        assert(b == s.len());
        assert(s.subrange(0, s.len() as int) =~= s);
    }
}

fn is_space_exec(c: char) -> (r: bool)
    ensures
        r == is_space(c),
{
    c == ' ' || c == '\t' || c == '\n' || c == '\r'
}

/// `s` with leading and trailing whitespace removed.
pub fn trim(s: &str) -> (r: &str)
    ensures
        r@ == spec_trim(s@),
{
    let n = s.unicode_len();
    let mut a: usize = 0;
    while a < n && is_space_exec(s.get_char(a))
        invariant
            n == s@.len(),
            0 <= a <= n,
            forall|j: int| 0 <= j < a ==> is_space(s@[j]),
        decreases n - a,
    {
        a = a + 1;
    }
    let mut b: usize = n;
    while b > a && is_space_exec(s.get_char(b - 1))
        invariant
            n == s@.len(),
            a <= b <= n,
            forall|j: int| b <= j < n ==> is_space(s@[j]),
        decreases b,
    {
        b = b - 1;
    }
    proof {
        lemma_trim_start_at(s@, a as int);
        let t = s@.subrange(a as int, s@.len() as int);
        assert forall|j: int| (b - a) <= j < t.len() implies is_space(t[j]) by {
            assert(t[j] == s@[a + j]);
        }
        if b > a {
            assert(t[b - a - 1] == s@[b - 1]);
        }
        lemma_trim_end_at(t, b - a);
        assert(t.subrange(0, b - a) =~= s@.subrange(a as int, b as int));
    }
    s.substring_char(a, b)
}

// ---------------------------------------------------------------------------
// Splitting and joining
// ---------------------------------------------------------------------------

/// The pieces of `s` between occurrences of `sep`, in order.  Splitting the
/// empty string gives one empty piece, as `str::split` does.
pub open spec fn spec_split(s: Seq<char>, sep: char) -> Seq<Seq<char>>
    decreases s.len(),
    via spec_split_decreases
{
    if spec_find(s, sep) == s.len() {
        seq![s]
    } else {
        seq![s.subrange(0, spec_find(s, sep))] + spec_split(
            s.subrange(spec_find(s, sep) + 1, s.len() as int),
            sep,
        )
    }
}

#[via_fn]
proof fn spec_split_decreases(s: Seq<char>, sep: char) {
    lemma_find_props(s, sep);
}

/// Split `s` at every occurrence of `sep`.
pub fn split_char(s: &str, sep: char) -> (r: Vec<String>)
    ensures
        r.deep_view() == spec_split(s@, sep),
{
    let mut out: Vec<String> = Vec::new();
    let mut rest: &str = s;
    let ghost whole = s@;
    proof {
        assert(out.deep_view() =~= Seq::<Seq<char>>::empty());
        assert(spec_split(whole, sep) =~= out.deep_view() + spec_split(rest@, sep));
    }
    loop
        invariant
            spec_split(whole, sep) == out.deep_view() + spec_split(rest@, sep),
        decreases rest@.len(),
    {
        let n = rest.unicode_len();
        let i = find_char(rest, sep);
        proof {
            lemma_find_props(rest@, sep);
        }
        if i == n {
            let ghost prev_out = out.deep_view();
            let piece = rest.to_owned();
            out.push(piece);
            proof {
                assert(spec_split(rest@, sep) =~~= seq![rest@]);
                assert(out.deep_view() =~~= prev_out.push(rest@));
                assert(spec_split(whole, sep) =~~= out.deep_view());
            }
            return out;
        } else {
            let piece = rest.substring_char(0, i);
            let next = rest.substring_char(i + 1, n);
            let ghost prev = rest@;
            let ghost prev_out = out.deep_view();
            out.push(piece.to_owned());
            proof {
                assert(spec_split(prev, sep) == seq![prev.subrange(0, i as int)] + spec_split(
                    prev.subrange(i + 1, prev.len() as int),
                    sep,
                ));
                assert(out.deep_view() =~= prev_out + seq![piece@]);
                assert(spec_split(whole, sep) =~= out.deep_view() + spec_split(next@, sep));
            }
            rest = next;
        }
    }
}

/// The pieces joined with `sep` between consecutive pieces.
pub open spec fn spec_join(pieces: Seq<Seq<char>>, sep: Seq<char>) -> Seq<char>
    decreases pieces.len(),
{
    if pieces.len() == 0 {
        Seq::empty()
    } else if pieces.len() == 1 {
        pieces[0]
    } else {
        pieces[0] + sep + spec_join(pieces.subrange(1, pieces.len() as int), sep)
    }
}

pub proof fn lemma_join_push(pieces: Seq<Seq<char>>, x: Seq<char>, sep: Seq<char>)
    ensures
        pieces.len() == 0 ==> spec_join(pieces.push(x), sep) == x,
        pieces.len() > 0 ==> spec_join(pieces.push(x), sep) == spec_join(pieces, sep) + sep + x,
    decreases pieces.len(),
{
    let p2 = pieces.push(x);
    if pieces.len() == 0 {
        assert(p2.len() == 1);
        assert(spec_join(p2, sep) == p2[0]);
        assert(p2[0] == x);
    } else if pieces.len() == 1 {
        assert(p2.len() == 2);
        assert(p2.subrange(1, 2) =~= seq![x]);
        assert(spec_join(p2, sep) == p2[0] + sep + spec_join(p2.subrange(1, 2), sep));
        assert(spec_join(p2.subrange(1, 2), sep) == x);
        assert(spec_join(pieces, sep) == pieces[0]);
        assert(p2[0] == pieces[0]);
    } else {
        lemma_join_push(pieces.subrange(1, pieces.len() as int), x, sep);
        assert(p2.subrange(1, p2.len() as int) =~= pieces.subrange(1, pieces.len() as int).push(x));
        assert(spec_join(p2, sep) == p2[0] + sep + spec_join(p2.subrange(1, p2.len() as int), sep));
        assert(spec_join(pieces, sep) + sep + x =~= pieces[0] + sep + (spec_join(
            pieces.subrange(1, pieces.len() as int),
            sep,
        ) + sep + x));
    }
}

/// Join the strings in `v` with `sep` between consecutive elements.
pub fn join_strs(v: &Vec<String>, sep: &str) -> (r: String)
    ensures
        r@ == spec_join(v.deep_view(), sep@),
{
    let mut out = String::new();
    let n = v.len();
    let mut i: usize = 0;
    while i < n
        invariant
            n == v.len(),
            0 <= i <= n,
            out@ == spec_join(v.deep_view().subrange(0, i as int), sep@),
        decreases n - i,
    {
        if i > 0 {
            out.append(sep);
        }
        out.append(v[i].as_str());
        proof {
            let dv = v.deep_view();
            assert(dv.subrange(0, i + 1) =~= dv.subrange(0, i as int).push(dv[i as int]));
            lemma_join_push(dv.subrange(0, i as int), dv[i as int], sep@);
        }
        i = i + 1;
    }
    proof {
        assert(v.deep_view().subrange(0, n as int) =~= v.deep_view());
    }
    out
}

// ---------------------------------------------------------------------------
// Decimal numbers
// ---------------------------------------------------------------------------

/// Every character of `s` is a decimal digit.
pub open spec fn all_digits(s: Seq<char>) -> bool {
    forall|j: int| 0 <= j < s.len() ==> is_digit(s[j])
}

/// Value of a sequence of decimal digits, most significant first.
pub open spec fn spec_digits_val(s: Seq<char>) -> int
    decreases s.len(),
{
    if s.len() == 0 {
        0
    } else {
        spec_digits_val(s.subrange(0, s.len() - 1)) * 10 + digit_val(s[s.len() - 1])
    }
}

proof fn lemma_digits_val_nonneg(s: Seq<char>)
    requires
        all_digits(s),
    ensures
        spec_digits_val(s) >= 0,
    decreases s.len(),
{
    if s.len() > 0 {
        let t = s.subrange(0, s.len() - 1);
        lemma_digits_val_nonneg(t);
    }
}

proof fn lemma_digits_val_prefix(s: Seq<char>, i: int)
    requires
        all_digits(s),
        0 <= i <= s.len(),
    ensures
        spec_digits_val(s.subrange(0, i)) <= spec_digits_val(s),
    decreases s.len() - i,
{
    if i < s.len() {
        lemma_digits_val_prefix(s, i + 1);
        let u = s.subrange(0, i + 1);
        assert(u.subrange(0, u.len() - 1) =~= s.subrange(0, i));
        assert(spec_digits_val(u) == spec_digits_val(s.subrange(0, i)) * 10 + digit_val(s[i]));
        lemma_digits_val_nonneg(s.subrange(0, i));
    } else {
        assert(s.subrange(0, i) =~= s);
    }
}

/// Parse a non-empty all-digit string as a `usize`; `None` if `s` is empty,
/// holds a non-digit, or its value does not fit.
pub fn parse_usize(s: &str) -> (r: Option<usize>)
    ensures
        match r {
            Some(v) => s@.len() > 0 && all_digits(s@) && v == spec_digits_val(s@),
            None => s@.len() == 0 || !all_digits(s@) || spec_digits_val(s@) > usize::MAX,
        },
{
    let n = s.unicode_len();
    if n == 0 {
        return None;
    }
    let mut v: usize = 0;
    let mut i: usize = 0;
    while i < n
        invariant
            n == s@.len(),
            0 <= i <= n,
            all_digits(s@.subrange(0, i as int)),
            v == spec_digits_val(s@.subrange(0, i as int)),
        decreases n - i,
    {
        let c = s.get_char(i);
        if !(c >= '0' && c <= '9') {
            return None;
        }
        let d: usize = (c as u32 as usize) - 48;
        assert(d == digit_val(c));
        if v > (usize::MAX - d) / 10 {
            proof {
                let u = s@.subrange(0, i + 1);
                assert(all_digits(u));
                assert(u.subrange(0, u.len() - 1) =~= s@.subrange(0, i as int));
                assert(spec_digits_val(u) == v * 10 + d);
                assert(v * 10 + d > usize::MAX) by (nonlinear_arith)
                    requires
                        v > (usize::MAX - d) / 10,
                        0 <= d <= 9,
                ;
                if all_digits(s@) {
                    lemma_digits_val_prefix(s@, i + 1);
                }
            }
            return None;
        }
        assert(v * 10 + d <= usize::MAX) by (nonlinear_arith)
            requires
                v <= (usize::MAX - d) / 10,
                0 <= d <= 9,
        ;
        v = v * 10 + d;
        proof {
            let u = s@.subrange(0, i + 1);
            assert(u.subrange(0, u.len() - 1) =~= s@.subrange(0, i as int));
        }
        i = i + 1;
    }
    proof {
        assert(s@.subrange(0, n as int) =~= s@);
    }
    Some(v)
}

/// The digit character for a value below ten.
pub open spec fn digit_char(d: int) -> char {
    if d == 0 { '0' } else if d == 1 { '1' } else if d == 2 { '2' } else if d == 3 { '3' }
    else if d == 4 { '4' } else if d == 5 { '5' } else if d == 6 { '6' } else if d == 7 { '7' }
    else if d == 8 { '8' } else { '9' }
}

/// Decimal rendering of a non-negative number, without leading zeros.
pub open spec fn spec_dec(n: int) -> Seq<char>
    decreases n,
{
    if n < 10 {
        seq![digit_char(n)]
    } else {
        spec_dec(n / 10) + seq![digit_char(n % 10)]
    }
}

fn digit_str(d: usize) -> (r: &'static str)
    requires
        d < 10,
    ensures
        r@ =~= seq![digit_char(d as int)],
{
    let r: &'static str = if d == 0 { "0" } else if d == 1 { "1" } else if d == 2 { "2" }
    else if d == 3 { "3" } else if d == 4 { "4" } else if d == 5 { "5" } else if d == 6 { "6" }
    else if d == 7 { "7" } else if d == 8 { "8" } else { "9" };
    proof {
        reveal_strlit("0");
        reveal_strlit("1");
        reveal_strlit("2");
        reveal_strlit("3");
        reveal_strlit("4");
        reveal_strlit("5");
        reveal_strlit("6");
        reveal_strlit("7");
        reveal_strlit("8");
        reveal_strlit("9");
    }
    r
}

/// Decimal rendering of `n`.
pub fn usize_to_string(n: usize) -> (r: String)
    ensures
        r@ == spec_dec(n as int),
    decreases n,
{
    if n < 10 {
        let mut out = String::new();
        out.append(digit_str(n));
        proof {
            assert(out@ =~= spec_dec(n as int));
        }
        out
    } else {
        let mut out = usize_to_string(n / 10);
        out.append(digit_str(n % 10));
        proof {
            assert(out@ =~= spec_dec(n as int));
        }
        out
    }
}

// ---------------------------------------------------------------------------
// Lowercasing (ASCII letters and digits only)
// ---------------------------------------------------------------------------

fn lower_char_str(c: char) -> (r: &'static str)
    requires
        is_ascii_alnum(c),
    ensures
        r@ =~= seq![lower_char(c)],
{
    let r: &'static str = match c {
        'A' | 'a' => "a", 'B' | 'b' => "b", 'C' | 'c' => "c", 'D' | 'd' => "d",
        'E' | 'e' => "e", 'F' | 'f' => "f", 'G' | 'g' => "g", 'H' | 'h' => "h",
        'I' | 'i' => "i", 'J' | 'j' => "j", 'K' | 'k' => "k", 'L' | 'l' => "l",
        'M' | 'm' => "m", 'N' | 'n' => "n", 'O' | 'o' => "o", 'P' | 'p' => "p",
        'Q' | 'q' => "q", 'R' | 'r' => "r", 'S' | 's' => "s", 'T' | 't' => "t",
        'U' | 'u' => "u", 'V' | 'v' => "v", 'W' | 'w' => "w", 'X' | 'x' => "x",
        'Y' | 'y' => "y", 'Z' | 'z' => "z", '0' => "0", '1' => "1", '2' => "2",
        '3' => "3", '4' => "4", '5' => "5", '6' => "6", '7' => "7", '8' => "8",
        _ => "9",
    };
    proof {
        reveal_strlit("a"); reveal_strlit("b"); reveal_strlit("c"); reveal_strlit("d");
        reveal_strlit("e"); reveal_strlit("f"); reveal_strlit("g"); reveal_strlit("h");
        reveal_strlit("i"); reveal_strlit("j"); reveal_strlit("k"); reveal_strlit("l");
        reveal_strlit("m"); reveal_strlit("n"); reveal_strlit("o"); reveal_strlit("p");
        reveal_strlit("q"); reveal_strlit("r"); reveal_strlit("s"); reveal_strlit("t");
        reveal_strlit("u"); reveal_strlit("v"); reveal_strlit("w"); reveal_strlit("x");
        reveal_strlit("y"); reveal_strlit("z"); reveal_strlit("0"); reveal_strlit("1");
        reveal_strlit("2"); reveal_strlit("3"); reveal_strlit("4"); reveal_strlit("5");
        reveal_strlit("6"); reveal_strlit("7"); reveal_strlit("8"); reveal_strlit("9");
    }
    r
}

/// ASCII lowercasing of a string of letters and digits.
pub fn to_lowercase_alnum(s: &str) -> (r: String)
    requires
        forall|j: int| 0 <= j < s@.len() ==> is_ascii_alnum(s@[j]),
    ensures
        r@ == spec_lower(s@),
{
    let n = s.unicode_len();
    let mut out = String::new();
    let mut i: usize = 0;
    while i < n
        invariant
            n == s@.len(),
            0 <= i <= n,
            forall|j: int| 0 <= j < s@.len() ==> is_ascii_alnum(s@[j]),
            out@ == spec_lower(s@).subrange(0, i as int),
        decreases n - i,
    {
        let c = s.get_char(i);
        out.append(lower_char_str(c));
        proof {
            assert(out@ =~= spec_lower(s@).subrange(0, i + 1));
        }
        i = i + 1;
    }
    proof {
        assert(spec_lower(s@).subrange(0, n as int) =~= spec_lower(s@));
    }
    out
}

} // verus!
