//! Character-level text operations with exact specifications.
//!
//! Every operation is stated over `Seq<char>`, the view of `str` and
//! `String`, and implemented on `Vec<char>`. Positions are character
//! positions, never byte offsets.

use vstd::prelude::*;

verus! {

// ---------------------------------------------------------------------------
// Character classes
// ---------------------------------------------------------------------------

/// Unicode white space (the `White_Space` property).
pub open spec fn is_space(c: char) -> bool {
    let n = c as u32;
    ||| (9 <= n && n <= 13)
    ||| n == 0x20
    ||| n == 0x85
    ||| n == 0xA0
    ||| n == 0x1680
    ||| (0x2000 <= n && n <= 0x200A)
    ||| n == 0x2028
    ||| n == 0x2029
    ||| n == 0x202F
    ||| n == 0x205F
    ||| n == 0x3000
}

/// Control characters (general category `Cc`).
pub open spec fn is_control(c: char) -> bool {
    let n = c as u32;
    n <= 0x1F || (0x7F <= n && n <= 0x9F)
}

/// ASCII decimal digits.
pub open spec fn is_digit(c: char) -> bool {
    let n = c as u32;
    0x30 <= n && n <= 0x39
}

/// The ASCII upper-case form of a character; other characters are unchanged.
pub open spec fn upper(c: char) -> char {
    let n = c as u32;
    if 0x61 <= n && n <= 0x7A {
        ((n - 0x20) as u8) as char
    } else {
        c
    }
}

/// The ASCII lower-case form of a character; other characters are unchanged.
pub open spec fn lower(c: char) -> char {
    let n = c as u32;
    if 0x41 <= n && n <= 0x5A {
        ((n + 0x20) as u8) as char
    } else {
        c
    }
}

pub fn is_space_char(c: char) -> (b: bool)
    ensures
        b == is_space(c),
{
    let n: u32 = c as u32;
    (9 <= n && n <= 13) || n == 0x20 || n == 0x85 || n == 0xA0 || n == 0x1680 || (0x2000 <= n && n
        <= 0x200A) || n == 0x2028 || n == 0x2029 || n == 0x202F || n == 0x205F || n == 0x3000
}

pub fn is_control_char(c: char) -> (b: bool)
    ensures
        b == is_control(c),
{
    let n: u32 = c as u32;
    n <= 0x1F || (0x7F <= n && n <= 0x9F)
}

pub fn is_digit_char(c: char) -> (b: bool)
    ensures
        b == is_digit(c),
{
    let n: u32 = c as u32;
    0x30 <= n && n <= 0x39
}

pub fn upper_char(c: char) -> (r: char)
    ensures
        r == upper(c),
{
    let n: u32 = c as u32;
    if 0x61 <= n && n <= 0x7A {
        ((n - 0x20) as u8) as char
    } else {
        c
    }
}

pub fn lower_char(c: char) -> (r: char)
    ensures
        r == lower(c),
{
    let n: u32 = c as u32;
    if 0x41 <= n && n <= 0x5A {
        ((n + 0x20) as u8) as char
    } else {
        c
    }
}

// ---------------------------------------------------------------------------
// Conversions
// ---------------------------------------------------------------------------

/// Appends one character to a string.
///
/// Wraps `String::push`, which the standard library documents as appending
/// the given character to the end of the string.
#[verifier::external_body]
pub(crate) fn push_char(s: &mut String, c: char)
    ensures
        final(s)@ == old(s)@.push(c),
{
    s.push(c)
}

/// The characters of a string slice, in order.
pub fn chars_of(s: &str) -> (v: Vec<char>)
    ensures
        v@ == s@,
{
    let mut v: Vec<char> = Vec::new();
    for c in it: s.chars()
        invariant
            it.seq() == s@,
            v@ == it.seq().take(it.index()),
    {
        v.push(c);
    }
    v
}

/// The string made of the given characters, in order.
pub fn string_of(v: &Vec<char>) -> (s: String)
    ensures
        s@ == v@,
{
    let mut s = String::new();
    let mut i: usize = 0;
    while i < v.len()
        invariant
            i <= v.len(),
            s@ == v@.take(i as int),
        decreases v.len() - i,
    {
        push_char(&mut s, v[i]);
        i = i + 1;
    }
    s
}

/// The characters of `v` from position `from` up to, not including, `to`.
pub fn slice_of(v: &Vec<char>, from: usize, to: usize) -> (r: Vec<char>)
    requires
        from <= to <= v.len(),
    ensures
        r@ == v@.subrange(from as int, to as int),
{
    let mut r: Vec<char> = Vec::new();
    let mut i: usize = from;
    while i < to
        invariant
            from <= i <= to <= v.len(),
            r@ == v@.subrange(from as int, i as int),
        decreases to - i,
    {
        r.push(v[i]);
        i = i + 1;
    }
    r
}

/// Appends all of `tail` to `out`.
pub fn extend_chars(out: &mut Vec<char>, tail: &Vec<char>)
    ensures
        final(out)@ == old(out)@ + tail@,
{
    let mut i: usize = 0;
    while i < tail.len()
        invariant
            i <= tail.len(),
            out@ == old(out)@ + tail@.take(i as int),
        decreases tail.len() - i,
    {
        out.push(tail[i]);
        i = i + 1;
    }
}

/// Appends the characters of `tail` to `out`.
pub fn extend_str(out: &mut Vec<char>, tail: &str)
    ensures
        final(out)@ == old(out)@ + tail@,
{
    let t = chars_of(tail);
    extend_chars(out, &t);
}

/// Whether two character sequences are equal.
pub fn chars_eq(a: &Vec<char>, b: &Vec<char>) -> (r: bool)
    ensures
        r == (a@ == b@),
{
    if a.len() != b.len() {
        return false;
    }
    let mut i: usize = 0;
    while i < a.len()
        invariant
            i <= a.len(),
            a.len() == b.len(),
            a@.take(i as int) == b@.take(i as int),
        decreases a.len() - i,
    {
        if a[i] != b[i] {
            return false;
        }
        assert(a@.take(i + 1) == a@.take(i as int).push(a@[i as int]));
        assert(b@.take(i + 1) == b@.take(i as int).push(b@[i as int]));
        i = i + 1;
    }
    assert(a@.take(a@.len() as int) == a@);
    assert(b@.take(b@.len() as int) == b@);
    true
}

/// Whether two strings are equal.
pub fn str_eq(a: &str, b: &str) -> (r: bool)
    ensures
        r == (a@ == b@),
{
    let av = chars_of(a);
    let bv = chars_of(b);
    chars_eq(&av, &bv)
}

/// Whether `s` holds nothing but white space.
pub fn is_blank(s: &str) -> (r: bool)
    ensures
        r == (trim(s@).len() == 0),
{
    let t = trimmed(s);
    t.len() == 0
}

/// Whether the characters of `a` spell the string `b`.
pub fn chars_eq_str(a: &Vec<char>, b: &str) -> (r: bool)
    ensures
        r == (a@ == b@),
{
    let bv = chars_of(b);
    chars_eq(a, &bv)
}

// ---------------------------------------------------------------------------
// Trimming
// ---------------------------------------------------------------------------

/// A set of characters that can be stripped from the ends of a text.
#[derive(Clone, Copy, Debug, PartialEq, Eq)]
pub enum CharClass {
    /// Unicode white space.
    Space,
    /// The punctuation that may cling to a value in a log line:
    /// comma, closing round or square bracket, double quote.
    Delimiter,
    /// Exactly the given character.
    Only(char),
}

/// Whether `c` belongs to the class `k`.
pub open spec fn in_class(k: CharClass, c: char) -> bool {
    match k {
        CharClass::Space => is_space(c),
        CharClass::Delimiter => c == ',' || c == ')' || c == ']' || c == '"',
        CharClass::Only(d) => c == d,
    }
}

pub fn in_class_char(k: CharClass, c: char) -> (b: bool)
    ensures
        b == in_class(k, c),
{
    match k {
        CharClass::Space => is_space_char(c),
        CharClass::Delimiter => c == ',' || c == ')' || c == ']' || c == '"',
        CharClass::Only(d) => c == d,
    }
}

/// Number of characters of class `k` at the start of `s`.
pub open spec fn lead_run(s: Seq<char>, k: CharClass) -> nat
    decreases s.len(),
{
    if s.len() > 0 && in_class(k, s[0]) {
        1 + lead_run(s.drop_first(), k)
    } else {
        0
    }
}

/// Number of characters of class `k` at the end of `s`.
pub open spec fn trail_run(s: Seq<char>, k: CharClass) -> nat
    decreases s.len(),
{
    if s.len() > 0 && in_class(k, s.last()) {
        1 + trail_run(s.drop_last(), k)
    } else {
        0
    }
}

/// `s` without its leading characters of class `k`.
pub open spec fn strip_start(s: Seq<char>, k: CharClass) -> Seq<char> {
    s.skip(lead_run(s, k) as int)
}

/// `s` without its trailing characters of class `k`.
pub open spec fn strip_end(s: Seq<char>, k: CharClass) -> Seq<char> {
    s.take(s.len() - trail_run(s, k))
}

/// `s` without leading and trailing characters of class `k`.
pub open spec fn strip(s: Seq<char>, k: CharClass) -> Seq<char> {
    strip_end(strip_start(s, k), k)
}

/// `s` without its leading white space.
pub open spec fn trim_start(s: Seq<char>) -> Seq<char> {
    strip_start(s, CharClass::Space)
}

/// `s` without its trailing white space.
pub open spec fn trim_end(s: Seq<char>) -> Seq<char> {
    strip_end(s, CharClass::Space)
}

/// `s` without leading and trailing white space.
pub open spec fn trim(s: Seq<char>) -> Seq<char> {
    strip(s, CharClass::Space)
}

/// The leading run is a prefix of class members that ends at a
/// non-member or at the end of the text.
pub proof fn lemma_lead_run_bound(s: Seq<char>, c: CharClass)
    ensures
        lead_run(s, c) <= s.len(),
        forall|k: int| 0 <= k < lead_run(s, c) ==> in_class(c, #[trigger] s[k]),
        lead_run(s, c) < s.len() ==> !in_class(c, s[lead_run(s, c) as int]),
    decreases s.len(),
{
    if s.len() > 0 && in_class(c, s[0]) {
        let t = s.drop_first();
        lemma_lead_run_bound(t, c);
        assert forall|k: int| 0 <= k < lead_run(s, c) implies in_class(c, #[trigger] s[k]) by {
            if k > 0 {
                assert(s[k] == t[k - 1]);
            }
        }
        if lead_run(s, c) < s.len() {
            assert(s[lead_run(s, c) as int] == t[lead_run(t, c) as int]);
        }
    }
}

/// The trailing run is a suffix of class members that starts after a
/// non-member or at the start of the text.
pub proof fn lemma_trail_run_bound(s: Seq<char>, c: CharClass)
    ensures
        trail_run(s, c) <= s.len(),
        forall|k: int| s.len() - trail_run(s, c) <= k < s.len() ==> in_class(c, #[trigger] s[k]),
        trail_run(s, c) < s.len() ==> !in_class(c, s[s.len() - trail_run(s, c) - 1]),
    decreases s.len(),
{
    if s.len() > 0 && in_class(c, s.last()) {
        let t = s.drop_last();
        lemma_trail_run_bound(t, c);
        assert forall|k: int| s.len() - trail_run(s, c) <= k < s.len() implies in_class(
            c,
            #[trigger] s[k],
        ) by {
            if k < s.len() - 1 {
                assert(s[k] == t[k]);
            }
        }
        if trail_run(s, c) < s.len() {
            assert(s[s.len() - trail_run(s, c) - 1] == t[t.len() - trail_run(t, c) - 1]);
        }
    }
}

/// A prefix of class members followed by anything else fixes the count.
pub proof fn lemma_lead_run_is(s: Seq<char>, c: CharClass, n: int)
    requires
        0 <= n <= s.len(),
        forall|k: int| 0 <= k < n ==> in_class(c, #[trigger] s[k]),
        n < s.len() ==> !in_class(c, s[n]),
    ensures
        lead_run(s, c) == n,
    decreases s.len(),
{
    if n > 0 {
        let t = s.drop_first();
        assert forall|k: int| 0 <= k < n - 1 implies in_class(c, #[trigger] t[k]) by {
            assert(t[k] == s[k + 1]);
        }
        lemma_lead_run_is(t, c, n - 1);
    }
}

/// A suffix of class members preceded by anything else fixes the count.
pub proof fn lemma_trail_run_is(s: Seq<char>, c: CharClass, n: int)
    requires
        0 <= n <= s.len(),
        forall|k: int| s.len() - n <= k < s.len() ==> in_class(c, #[trigger] s[k]),
        n < s.len() ==> !in_class(c, s[s.len() - n - 1]),
    ensures
        trail_run(s, c) == n,
    decreases s.len(),
{
    if n > 0 {
        let t = s.drop_last();
        assert forall|k: int| t.len() - (n - 1) <= k < t.len() implies in_class(
            c,
            #[trigger] t[k],
        ) by {
            assert(t[k] == s[k]);
        }
        lemma_trail_run_is(t, c, n - 1);
    }
}

/// Stripping an already stripped text changes nothing.
pub proof fn lemma_strip_idempotent(s: Seq<char>, c: CharClass)
    ensures
        strip(strip(s, c), c) == strip(s, c),
        strip(s, c).len() > 0 ==> !in_class(c, strip(s, c)[0]) && !in_class(c, strip(s, c).last()),
{
    let a = strip_start(s, c);
    lemma_lead_run_bound(s, c);
    lemma_trail_run_bound(a, c);
    let t = strip(s, c);
    if t.len() > 0 {
        assert(t[0] == s[lead_run(s, c) as int]);
        assert(t.last() == a[a.len() - trail_run(a, c) - 1]);
        lemma_lead_run_is(t, c, 0);
        lemma_trail_run_is(t, c, 0);
        assert(strip_start(t, c) == t);
        assert(strip_end(t, c) == t);
    } else {
        assert(lead_run(t, c) == 0);
        assert(trail_run(t, c) == 0);
        assert(strip_start(t, c) == t);
        assert(strip_end(t, c) == t);
    }
}

/// Number of characters of class `k` at the start of `v`.
pub fn lead_run_len(v: &Vec<char>, k: CharClass) -> (n: usize)
    ensures
        n == lead_run(v@, k),
        n <= v.len(),
{
    let mut i: usize = 0;
    while i < v.len() && in_class_char(k, v[i])
        invariant
            i <= v.len(),
            forall|j: int| 0 <= j < i ==> in_class(k, #[trigger] v@[j]),
        decreases v.len() - i,
    {
        i = i + 1;
    }
    proof {
        lemma_lead_run_is(v@, k, i as int);
    }
    i
}

/// Number of characters of class `k` at the end of `v`.
pub fn trail_run_len(v: &Vec<char>, k: CharClass) -> (n: usize)
    ensures
        n == trail_run(v@, k),
        n <= v.len(),
{
    let mut i: usize = 0;
    while i < v.len() && in_class_char(k, v[v.len() - 1 - i])
        invariant
            i <= v.len(),
            forall|j: int| v.len() - i <= j < v.len() ==> in_class(k, #[trigger] v@[j]),
        decreases v.len() - i,
    {
        i = i + 1;
    }
    proof {
        lemma_trail_run_is(v@, k, i as int);
    }
    i
}

pub fn strip_start_chars(v: &Vec<char>, k: CharClass) -> (r: Vec<char>)
    ensures
        r@ == strip_start(v@, k),
        r.len() <= v.len(),
{
    let n = lead_run_len(v, k);
    slice_of(v, n, v.len())
}

pub fn strip_end_chars(v: &Vec<char>, k: CharClass) -> (r: Vec<char>)
    ensures
        r@ == strip_end(v@, k),
        r.len() <= v.len(),
{
    let n = trail_run_len(v, k);
    slice_of(v, 0, v.len() - n)
}

pub fn strip_chars(v: &Vec<char>, k: CharClass) -> (r: Vec<char>)
    ensures
        r@ == strip(v@, k),
        r.len() <= v.len(),
{
    let a = strip_start_chars(v, k);
    strip_end_chars(&a, k)
}

pub fn trim_start_chars(v: &Vec<char>) -> (r: Vec<char>)
    ensures
        r@ == trim_start(v@),
        r.len() <= v.len(),
{
    strip_start_chars(v, CharClass::Space)
}

pub fn trim_end_chars(v: &Vec<char>) -> (r: Vec<char>)
    ensures
        r@ == trim_end(v@),
        r.len() <= v.len(),
{
    strip_end_chars(v, CharClass::Space)
}

pub fn trim_chars(v: &Vec<char>) -> (r: Vec<char>)
    ensures
        r@ == trim(v@),
        r.len() <= v.len(),
{
    strip_chars(v, CharClass::Space)
}

/// The characters of `s` without surrounding white space.
pub fn trimmed(s: &str) -> (r: Vec<char>)
    ensures
        r@ == trim(s@),
{
    let v = chars_of(s);
    trim_chars(&v)
}

// ---------------------------------------------------------------------------
// Searching
// ---------------------------------------------------------------------------

/// Whether `pat` occurs in `s` at position `i`.
pub open spec fn has_at(s: Seq<char>, pat: Seq<char>, i: int) -> bool {
    &&& 0 <= i
    &&& i + pat.len() <= s.len()
    &&& s.subrange(i, i + pat.len()) == pat
}

/// Whether `pat` occurs somewhere in `s`.
#[verifier::opaque]
pub open spec fn contains(s: Seq<char>, pat: Seq<char>) -> bool {
    exists|i: int| has_at(s, pat, i)
}

/// The position of the first occurrence of `pat` in `s`.
pub open spec fn find(s: Seq<char>, pat: Seq<char>) -> Option<int> {
    if contains(s, pat) {
        Some(first_at(s, pat))
    } else {
        None
    }
}

/// The least position at which `pat` occurs in `s`, where it occurs at all.
#[verifier::opaque]
pub open spec fn first_at(s: Seq<char>, pat: Seq<char>) -> int {
    choose|i: int| has_at(s, pat, i) && forall|j: int| 0 <= j < i ==> !has_at(s, pat, j)
}

/// Whether `s` begins with `pat`.
pub open spec fn starts_with(s: Seq<char>, pat: Seq<char>) -> bool {
    has_at(s, pat, 0)
}

/// Whether `s` ends with `pat`.
pub open spec fn ends_with(s: Seq<char>, pat: Seq<char>) -> bool {
    has_at(s, pat, s.len() - pat.len())
}

/// Whether every character of `s` is an ASCII digit.
pub open spec fn all_digits(s: Seq<char>) -> bool {
    forall|k: int| 0 <= k < s.len() ==> is_digit(#[trigger] s[k])
}

/// Number of occurrences of the character `c` in `s`.
pub open spec fn count_char(s: Seq<char>, c: char) -> nat
    decreases s.len(),
{
    if s.len() == 0 {
        0
    } else {
        count_char(s.drop_last(), c) + if s.last() == c {
            1nat
        } else {
            0nat
        }
    }
}

/// The position of the last occurrence of the character `c` in `s`.
pub open spec fn rfind_char(s: Seq<char>, c: char) -> Option<int>
    decreases s.len(),
{
    if s.len() == 0 {
        None
    } else if s.last() == c {
        Some(s.len() - 1)
    } else {
        rfind_char(s.drop_last(), c)
    }
}

/// A witness position is enough to conclude that `find` succeeds with the
/// least match.
pub proof fn lemma_find_first(s: Seq<char>, pat: Seq<char>, i: int)
    requires
        has_at(s, pat, i),
        forall|j: int| 0 <= j < i ==> !has_at(s, pat, j),
    ensures
        find(s, pat) == Some(i),
{
    reveal(contains);
    reveal(first_at);
    lemma_least_match(s, pat, i);
    let f = first_at(s, pat);
    assert(has_at(s, pat, f) && forall|j: int| 0 <= j < f ==> !has_at(s, pat, j));
    if f < i {
        assert(!has_at(s, pat, f));
    }
    if i < f {
        assert(!has_at(s, pat, i));
    }
}

/// Where `pat` occurs, `find` gives its least position.
pub proof fn lemma_find_some(s: Seq<char>, pat: Seq<char>)
    requires
        contains(s, pat),
    ensures
        find(s, pat) is Some,
        has_at(s, pat, find(s, pat).unwrap()),
        forall|j: int| 0 <= j < find(s, pat).unwrap() ==> !has_at(s, pat, j),
{
    reveal(contains);
    reveal(first_at);
    let w = choose|i: int| has_at(s, pat, i);
    lemma_least_match(s, pat, w);
}

/// Where `pat` occurs nowhere, it is not contained.
pub proof fn lemma_not_contained(s: Seq<char>, pat: Seq<char>)
    requires
        forall|j: int| 0 <= j <= s.len() - pat.len() ==> !has_at(s, pat, j),
    ensures
        !contains(s, pat),
        find(s, pat) is None,
{
    reveal(contains);
}

/// An occurrence is a witness that `pat` is contained.
pub proof fn lemma_contained(s: Seq<char>, pat: Seq<char>, i: int)
    requires
        has_at(s, pat, i),
    ensures
        contains(s, pat),
{
    reveal(contains);
}

proof fn lemma_least_match(s: Seq<char>, pat: Seq<char>, w: int)
    requires
        has_at(s, pat, w),
    ensures
        exists|i: int| has_at(s, pat, i) && forall|j: int| 0 <= j < i ==> !has_at(s, pat, j),
    decreases w,
{
    if exists|j: int| 0 <= j < w && has_at(s, pat, j) {
        let j = choose|j: int| 0 <= j < w && has_at(s, pat, j);
        lemma_least_match(s, pat, j);
    } else {
        assert(has_at(s, pat, w) && forall|j: int| 0 <= j < w ==> !has_at(s, pat, j));
    }
}

/// Whether `pat` occurs in `v` at position `i`.
pub fn has_at_chars(v: &Vec<char>, pat: &Vec<char>, i: usize) -> (r: bool)
    ensures
        r == has_at(v@, pat@, i as int),
{
    if pat.len() > v.len() || i > v.len() - pat.len() {
        return false;
    }
    let mut k: usize = 0;
    while k < pat.len()
        invariant
            k <= pat.len(),
            i + pat.len() <= v.len(),
            forall|j: int| 0 <= j < k ==> v@[i + j] == pat@[j],
        decreases pat.len() - k,
    {
        if v[i + k] != pat[k] {
            proof {
                let sub = v@.subrange(i as int, i + pat.len());
                assert(sub[k as int] == v@[i + k]);
            }
            return false;
        }
        k = k + 1;
    }
    assert(v@.subrange(i as int, i + pat.len()) =~= pat@);
    true
}

/// The position of the first occurrence of `pat` in `v`.
pub fn find_chars(v: &Vec<char>, pat: &Vec<char>) -> (r: Option<usize>)
    ensures
        match r {
            Some(i) => find(v@, pat@) == Some(i as int) && i + pat.len() <= v.len(),
            None => find(v@, pat@) is None,
        },
{
    if pat.len() > v.len() {
        proof {
            lemma_not_contained(v@, pat@);
        }
        return None;
    }
    let last: usize = v.len() - pat.len();
    let mut i: usize = 0;
    while i <= last
        invariant
            last == v.len() - pat.len(),
            i <= last + 1,
            forall|j: int| 0 <= j < i ==> !has_at(v@, pat@, j),
        decreases last + 1 - i,
    {
        if has_at_chars(v, pat, i) {
            proof {
                lemma_find_first(v@, pat@, i as int);
            }
            return Some(i);
        }
        if i == last {
            proof {
                lemma_not_contained(v@, pat@);
            }
            return None;
        }
        i = i + 1;
    }
    proof {
        lemma_not_contained(v@, pat@);
    }
    None
}

/// The position of the first occurrence of the string `pat` in `v`.
pub fn find_str(v: &Vec<char>, pat: &str) -> (r: Option<usize>)
    ensures
        match r {
            Some(i) => find(v@, pat@) == Some(i as int) && i + pat@.len() <= v.len(),
            None => find(v@, pat@) is None,
        },
{
    let p = chars_of(pat);
    find_chars(v, &p)
}

/// Whether the string `pat` occurs in `v`.
pub fn contains_str(v: &Vec<char>, pat: &str) -> (r: bool)
    ensures
        r == contains(v@, pat@),
{
    find_str(v, pat).is_some()
}

/// Whether `v` begins with the string `pat`.
pub fn starts_with_str(v: &Vec<char>, pat: &str) -> (r: bool)
    ensures
        r == starts_with(v@, pat@),
{
    let p = chars_of(pat);
    has_at_chars(v, &p, 0)
}

/// Whether every character of `v` is an ASCII digit.
pub fn all_digits_chars(v: &Vec<char>) -> (r: bool)
    ensures
        r == all_digits(v@),
{
    let mut i: usize = 0;
    while i < v.len()
        invariant
            i <= v.len(),
            forall|k: int| 0 <= k < i ==> is_digit(#[trigger] v@[k]),
        decreases v.len() - i,
    {
        if !is_digit_char(v[i]) {
            return false;
        }
        i = i + 1;
    }
    true
}

/// Number of occurrences of the character `c` in `v`.
pub fn count_char_chars(v: &Vec<char>, c: char) -> (n: usize)
    ensures
        n == count_char(v@, c),
{
    let mut n: usize = 0;
    let mut i: usize = 0;
    while i < v.len()
        invariant
            i <= v.len(),
            n <= i,
            n == count_char(v@.take(i as int), c),
        decreases v.len() - i,
    {
        proof {
            assert(v@.take(i + 1).drop_last() == v@.take(i as int));
        }
        if v[i] == c {
            n = n + 1;
        }
        i = i + 1;
    }
    assert(v@.take(v.len() as int) == v@);
    n
}

/// The position of the last occurrence of the character `c` in `v`.
pub fn rfind_char_chars(v: &Vec<char>, c: char) -> (r: Option<usize>)
    ensures
        match r {
            Some(i) => rfind_char(v@, c) == Some(i as int) && i < v.len() && v@[i as int] == c,
            None => rfind_char(v@, c) is None,
        },
{
    let mut i: usize = v.len();
    assert(v@.take(v.len() as int) == v@);
    while i > 0
        invariant
            i <= v.len(),
            rfind_char(v@, c) == rfind_char(v@.take(i as int), c),
        decreases i,
    {
        if v[i - 1] == c {
            return Some(i - 1);
        }
        proof {
            assert(v@.take(i as int).drop_last() == v@.take(i - 1));
        }
        i = i - 1;
    }
    None
}

/// The position of the first occurrence of the character `c` in `v`.
pub fn find_char_chars(v: &Vec<char>, c: char) -> (r: Option<usize>)
    ensures
        match r {
            Some(i) => find(v@, seq![c]) == Some(i as int) && i < v.len() && v@[i as int] == c,
            None => find(v@, seq![c]) is None,
        },
{
    let mut p: Vec<char> = Vec::new();
    p.push(c);
    assert(p@ =~= seq![c]);
    let r = find_chars(v, &p);
    proof {
        if let Some(i) = r {
            lemma_find_some(v@, p@);
            assert(v@.subrange(i as int, i + 1)[0] == c);
        }
    }
    r
}

// ---------------------------------------------------------------------------
// Case mapping, replacement, numbers
// ---------------------------------------------------------------------------

/// `s` with every ASCII letter in upper case.
pub open spec fn ascii_upper(s: Seq<char>) -> Seq<char> {
    Seq::new(s.len(), |i: int| upper(s[i]))
}

/// `s` with every ASCII letter in lower case.
pub open spec fn ascii_lower(s: Seq<char>) -> Seq<char> {
    Seq::new(s.len(), |i: int| lower(s[i]))
}

pub fn ascii_upper_chars(v: &Vec<char>) -> (r: Vec<char>)
    ensures
        r@ == ascii_upper(v@),
{
    let mut r: Vec<char> = Vec::new();
    let mut i: usize = 0;
    while i < v.len()
        invariant
            i <= v.len(),
            r.len() == i,
            forall|k: int| 0 <= k < i ==> r@[k] == upper(v@[k]),
        decreases v.len() - i,
    {
        r.push(upper_char(v[i]));
        i = i + 1;
    }
    assert(r@ =~= ascii_upper(v@));
    r
}

pub fn ascii_lower_chars(v: &Vec<char>) -> (r: Vec<char>)
    ensures
        r@ == ascii_lower(v@),
{
    let mut r: Vec<char> = Vec::new();
    let mut i: usize = 0;
    while i < v.len()
        invariant
            i <= v.len(),
            r.len() == i,
            forall|k: int| 0 <= k < i ==> r@[k] == lower(v@[k]),
        decreases v.len() - i,
    {
        r.push(lower_char(v[i]));
        i = i + 1;
    }
    assert(r@ =~= ascii_lower(v@));
    r
}

/// `s` with every occurrence of the character `c` replaced by `with`.
pub open spec fn replace_char(s: Seq<char>, c: char, with: Seq<char>) -> Seq<char>
    decreases s.len(),
{
    if s.len() == 0 {
        s
    } else {
        replace_char(s.drop_last(), c, with) + if s.last() == c {
            with
        } else {
            seq![s.last()]
        }
    }
}

pub fn replace_char_chars(v: &Vec<char>, c: char, with: &str) -> (r: Vec<char>)
    ensures
        r@ == replace_char(v@, c, with@),
{
    let w = chars_of(with);
    let mut r: Vec<char> = Vec::new();
    let mut i: usize = 0;
    while i < v.len()
        invariant
            i <= v.len(),
            w@ == with@,
            r@ == replace_char(v@.take(i as int), c, with@),
        decreases v.len() - i,
    {
        proof {
            assert(v@.take(i + 1).drop_last() == v@.take(i as int));
        }
        if v[i] == c {
            extend_chars(&mut r, &w);
        } else {
            r.push(v[i]);
        }
        i = i + 1;
    }
    assert(v@.take(v.len() as int) == v@);
    r
}

/// The decimal digit for a value below ten.
pub open spec fn digit_char(d: nat) -> char
    recommends
        d < 10,
{
    ((0x30 + d) as u8) as char
}

/// The decimal numeral of `n`, without sign or leading zeros.
pub open spec fn decimal(n: nat) -> Seq<char>
    decreases n,
{
    if n < 10 {
        seq![digit_char(n)]
    } else {
        decimal(n / 10).push(digit_char(n % 10))
    }
}

/// The decimal numeral of `n`.
pub fn decimal_chars(n: u64) -> (r: Vec<char>)
    ensures
        r@ == decimal(n as nat),
    decreases n,
{
    if n < 10 {
        let mut r: Vec<char> = Vec::new();
        r.push(((0x30 + n) as u8) as char);
        assert(r@ =~= seq![digit_char(n as nat)]);
        r
    } else {
        let mut r = decimal_chars(n / 10);
        r.push(((0x30 + n % 10) as u8) as char);
        r
    }
}

/// The text of a truth value: `true` or `false`.
pub open spec fn bool_text(b: bool) -> Seq<char> {
    if b {
        "true"@
    } else {
        "false"@
    }
}

// ---------------------------------------------------------------------------
// Words
// ---------------------------------------------------------------------------

/// Number of characters at the start of `s` that are not white space.
pub open spec fn word_len(s: Seq<char>) -> nat
    decreases s.len(),
{
    if s.len() > 0 && !is_space(s[0]) {
        1 + word_len(s.drop_first())
    } else {
        0
    }
}

/// The maximal runs of characters of `s` that hold no white space, in order.
pub open spec fn words(s: Seq<char>) -> Seq<Seq<char>>
    decreases s.len(),
{
    let t = trim_start(s);
    if t.len() == 0 {
        Seq::empty()
    } else if word_len(t) == 0 {
        Seq::empty()
    } else {
        proof {
            lemma_lead_run_bound(s, CharClass::Space);
            lemma_word_len_bound(t);
        }
        seq![t.take(word_len(t) as int)] + words(t.skip(word_len(t) as int))
    }
}

/// The first word of `s`, where it has one.
pub open spec fn first_word(s: Seq<char>) -> Option<Seq<char>> {
    let t = trim_start(s);
    if t.len() == 0 {
        None
    } else {
        Some(t.take(word_len(t) as int))
    }
}

pub proof fn lemma_word_len_bound(s: Seq<char>)
    ensures
        word_len(s) <= s.len(),
        forall|k: int| 0 <= k < word_len(s) ==> !is_space(#[trigger] s[k]),
        word_len(s) < s.len() ==> is_space(s[word_len(s) as int]),
    decreases s.len(),
{
    if s.len() > 0 && !is_space(s[0]) {
        let t = s.drop_first();
        lemma_word_len_bound(t);
        assert forall|k: int| 0 <= k < word_len(s) implies !is_space(#[trigger] s[k]) by {
            if k > 0 {
                assert(s[k] == t[k - 1]);
            }
        }
        if word_len(s) < s.len() {
            assert(s[word_len(s) as int] == t[word_len(t) as int]);
        }
    }
}

pub proof fn lemma_word_len_is(s: Seq<char>, n: int)
    requires
        0 <= n <= s.len(),
        forall|k: int| 0 <= k < n ==> !is_space(#[trigger] s[k]),
        n < s.len() ==> is_space(s[n]),
    ensures
        word_len(s) == n,
    decreases s.len(),
{
    if n > 0 {
        let t = s.drop_first();
        assert forall|k: int| 0 <= k < n - 1 implies !is_space(#[trigger] t[k]) by {
            assert(t[k] == s[k + 1]);
        }
        lemma_word_len_is(t, n - 1);
    }
}

/// Number of characters at the start of `v`, from `from` on, that are not white space.
pub fn word_len_from(v: &Vec<char>, from: usize) -> (n: usize)
    requires
        from <= v.len(),
    ensures
        n == word_len(v@.skip(from as int)),
        from + n <= v.len(),
{
    let mut i: usize = from;
    while i < v.len() && !is_space_char(v[i])
        invariant
            from <= i <= v.len(),
            forall|j: int| from <= j < i ==> !is_space(#[trigger] v@[j]),
        decreases v.len() - i,
    {
        i = i + 1;
    }
    proof {
        let t = v@.skip(from as int);
        assert forall|k: int| 0 <= k < i - from implies !is_space(#[trigger] t[k]) by {
            assert(t[k] == v@[from + k]);
        }
        lemma_word_len_is(t, i - from);
    }
    i - from
}

/// The first word of `v`, where it has one.
pub fn first_word_chars(v: &Vec<char>) -> (r: Option<Vec<char>>)
    ensures
        match r {
            Some(w) => first_word(v@) == Some(w@),
            None => first_word(v@) is None,
        },
{
    let t = trim_start_chars(v);
    if t.len() == 0 {
        None
    } else {
        let n = word_len_from(&t, 0);
        assert(t@.skip(0) == t@);
        Some(slice_of(&t, 0, n))
    }
}

/// The words of `v`, in order.
pub fn words_chars(v: &Vec<char>) -> (r: Vec<Vec<char>>)
    ensures
        r.len() == words(v@).len(),
        forall|k: int| 0 <= k < r.len() ==> (#[trigger] r@[k])@ == words(v@)[k],
{
    let mut out: Vec<Vec<char>> = Vec::new();
    let mut rest: Vec<char> = slice_of(v, 0, v.len());
    assert(rest@ == v@);
    loop
        invariant
            rest.len() <= v.len(),
            words(v@).len() == out.len() + words(rest@).len(),
            forall|k: int| 0 <= k < out.len() ==> (#[trigger] out@[k])@ == words(v@)[k],
            forall|k: int|
                0 <= k < words(rest@).len() ==> words(v@)[out.len() + k] == #[trigger] words(
                    rest@,
                )[k],
        decreases rest.len(),
    {
        let t = trim_start_chars(&rest);
        if t.len() == 0 {
            return out;
        }
        let n = word_len_from(&t, 0);
        assert(t@.skip(0) == t@);
        if n == 0 {
            return out;
        }
        let w = slice_of(&t, 0, n);
        let next = slice_of(&t, n, t.len());
        proof {
            let wr = words(rest@);
            let wn = words(next@);
            assert(t@.subrange(n as int, t.len() as int) == t@.skip(n as int));
            assert(wr == seq![w@] + wn);
            assert(wr[0] == w@);
            assert forall|k: int| 0 <= k < wn.len() implies words(v@)[out.len() + 1 + k]
                == #[trigger] wn[k] by {
                assert(wr[k + 1] == wn[k]);
            }
        }
        out.push(w);
        rest = next;
    }
}

// ---------------------------------------------------------------------------
// Lists of texts
// ---------------------------------------------------------------------------

/// What a list of character vectors says.
pub open spec fn texts(v: Seq<Vec<char>>) -> Seq<Seq<char>> {
    v.map_values(|t: Vec<char>| t@)
}

/// What a list of strings says.
pub open spec fn strs(v: Seq<String>) -> Seq<Seq<char>> {
    v.map_values(|t: String| t@)
}

/// Appends a copy of the string `s` to the list `v`.
pub fn push_str(v: &mut Vec<String>, s: &str)
    ensures
        strs(final(v)@) == strs(old(v)@).push(s@),
{
    let owned = s.to_owned();
    v.push(owned);
    assert(strs(v@) =~= strs(old(v)@).push(s@));
}

/// Appends the string spelled by `s` to the list `v`.
pub fn push_chars(v: &mut Vec<String>, s: &Vec<char>)
    ensures
        strs(final(v)@) == strs(old(v)@).push(s@),
{
    let owned = string_of(s);
    v.push(owned);
    assert(strs(v@) =~= strs(old(v)@).push(s@));
}

/// Appends the character vector of `s` to the list `v`.
pub fn push_text(v: &mut Vec<Vec<char>>, s: &str)
    ensures
        texts(final(v)@) == texts(old(v)@).push(s@),
{
    let t = chars_of(s);
    v.push(t);
    assert(texts(v@) =~= texts(old(v)@).push(s@));
}

/// The position at which `s` is cut: the least position at which one of
/// `marks` begins, or the length of `s` where none occurs.
#[verifier::opaque]
pub open spec fn cut_at(s: Seq<char>, marks: Seq<Seq<char>>) -> int
    decreases marks.len(),
{
    if marks.len() == 0 {
        s.len() as int
    } else {
        let rest = cut_at(s, marks.drop_last());
        match find(s, marks.last()) {
            Some(p) => if p < rest {
                p
            } else {
                rest
            },
            None => rest,
        }
    }
}

pub proof fn lemma_cut_at_bound(s: Seq<char>, marks: Seq<Seq<char>>)
    ensures
        0 <= cut_at(s, marks) <= s.len(),
    decreases marks.len(),
{
    reveal(cut_at);
    if marks.len() > 0 {
        lemma_cut_at_bound(s, marks.drop_last());
        if contains(s, marks.last()) {
            lemma_find_some(s, marks.last());
        }
    }
}

/// One more mark lowers the cut to its first occurrence, where that
/// comes earlier.
pub proof fn lemma_cut_at_step(s: Seq<char>, marks: Seq<Seq<char>>, i: int)
    requires
        0 <= i < marks.len(),
    ensures
        cut_at(s, marks.take(i + 1)) == match find(s, marks[i]) {
            Some(p) => if p < cut_at(s, marks.take(i)) {
                p
            } else {
                cut_at(s, marks.take(i))
            },
            None => cut_at(s, marks.take(i)),
        },
{
    reveal(cut_at);
    assert(marks.take(i + 1).drop_last() =~= marks.take(i));
    assert(marks.take(i + 1).last() == marks[i]);
}

/// Without marks nothing is cut.
pub proof fn lemma_cut_at_none(s: Seq<char>)
    ensures
        cut_at(s, Seq::empty()) == s.len(),
{
    reveal(cut_at);
}

pub fn cut_at_chars(v: &Vec<char>, marks: &Vec<Vec<char>>) -> (end: usize)
    ensures
        end == cut_at(v@, texts(marks@)),
        end <= v.len(),
{
    let mut end: usize = v.len();
    let mut i: usize = 0;
    proof {
        assert(texts(marks@).take(0) =~= Seq::<Seq<char>>::empty());
        lemma_cut_at_none(v@);
    }
    while i < marks.len()
        invariant
            i <= marks.len(),
            end <= v.len(),
            end == cut_at(v@, texts(marks@).take(i as int)),
        decreases marks.len() - i,
    {
        proof {
            lemma_cut_at_step(v@, texts(marks@), i as int);
            assert(texts(marks@)[i as int] == marks@[i as int]@);
        }
        let found = find_chars(v, &marks[i]);
        if let Some(p) = found {
            if p < end {
                end = p;
            }
        }
        i = i + 1;
    }
    assert(texts(marks@).take(marks.len() as int) =~= texts(marks@));
    end
}

// ---------------------------------------------------------------------------
// Building texts from pieces
// ---------------------------------------------------------------------------

/// The pieces written one after the other.
pub open spec fn concat(pieces: Seq<Seq<char>>) -> Seq<char>
    decreases pieces.len(),
{
    if pieces.len() == 0 {
        Seq::empty()
    } else {
        concat(pieces.drop_last()) + pieces.last()
    }
}

/// Appends a copy of `piece` to the pieces.
pub fn push_piece(v: &mut Vec<Vec<char>>, piece: &Vec<char>)
    ensures
        texts(final(v)@) == texts(old(v)@).push(piece@),
{
    let t = slice_of(piece, 0, piece.len());
    assert(t@ =~= piece@);
    v.push(t);
    assert(texts(v@) =~= texts(old(v)@).push(piece@));
}

/// Appends the decimal numeral of `n` to the pieces.
pub fn push_number(v: &mut Vec<Vec<char>>, n: u64)
    ensures
        texts(final(v)@) == texts(old(v)@).push(decimal(n as nat)),
{
    let t = decimal_chars(n);
    v.push(t);
    assert(texts(v@) =~= texts(old(v)@).push(decimal(n as nat)));
}

/// Appends `true` or `false` to the pieces.
pub fn push_bool(v: &mut Vec<Vec<char>>, b: bool)
    ensures
        texts(final(v)@) == texts(old(v)@).push(bool_text(b)),
{
    if b {
        push_text(v, "true");
    } else {
        push_text(v, "false");
    }
}

/// No pieces yet.
pub fn no_pieces() -> (v: Vec<Vec<char>>)
    ensures
        texts(v@) == Seq::<Seq<char>>::empty(),
{
    let v: Vec<Vec<char>> = Vec::new();
    assert(texts(v@) =~= Seq::<Seq<char>>::empty());
    v
}

/// The characters of the pieces written one after the other.
pub fn join_chars(pieces: &Vec<Vec<char>>) -> (r: Vec<char>)
    ensures
        r@ == concat(texts(pieces@)),
{
    let ghost all = texts(pieces@);
    let mut out: Vec<char> = Vec::new();
    let mut i: usize = 0;
    assert(all.take(0) =~= Seq::<Seq<char>>::empty());
    while i < pieces.len()
        invariant
            i <= pieces.len(),
            all == texts(pieces@),
            out@ == concat(all.take(i as int)),
        decreases pieces.len() - i,
    {
        proof {
            assert(all.take(i + 1).drop_last() =~= all.take(i as int));
            assert(all.take(i + 1).last() == pieces@[i as int]@);
        }
        extend_chars(&mut out, &pieces[i]);
        i = i + 1;
    }
    assert(all.take(pieces.len() as int) =~= all);
    out
}

/// The string of the pieces written one after the other.
pub fn join(pieces: &Vec<Vec<char>>) -> (r: String)
    ensures
        r@ == concat(texts(pieces@)),
{
    let out = join_chars(pieces);
    string_of(&out)
}

/// The numeral of `n` as a string.
pub fn decimal_string(n: u64) -> (r: String)
    ensures
        r@ == decimal(n as nat),
{
    let v = decimal_chars(n);
    string_of(&v)
}

// ---------------------------------------------------------------------------
// Splitting and parsing
// ---------------------------------------------------------------------------

/// The parts of `s` between the occurrences of the character `c`.
pub open spec fn split_on(s: Seq<char>, c: char) -> Seq<Seq<char>>
    decreases s.len(),
{
    match find(s, seq![c]) {
        None => seq![s],
        Some(i) => if 0 <= i < s.len() {
            seq![s.take(i)] + split_on(s.skip(i + 1), c)
        } else {
            seq![s]
        },
    }
}

/// The part of `s` before the first occurrence of the character `c`, or
/// all of `s` where `c` does not occur.
pub open spec fn before_char(s: Seq<char>, c: char) -> Seq<char> {
    match find(s, seq![c]) {
        Some(i) => s.take(i),
        None => s,
    }
}

pub fn before_char_chars(v: &Vec<char>, c: char) -> (r: Vec<char>)
    ensures
        r@ == before_char(v@, c),
{
    match find_char_chars(v, c) {
        Some(i) => {
            let r = slice_of(v, 0, i);
            assert(r@ == v@.take(i as int));
            r
        },
        None => {
            let r = slice_of(v, 0, v.len());
            assert(r@ == v@);
            r
        },
    }
}

pub fn split_on_chars(v: &Vec<char>, c: char) -> (r: Vec<Vec<char>>)
    ensures
        texts(r@) == split_on(v@, c),
{
    let mut out: Vec<Vec<char>> = Vec::new();
    let mut rest: Vec<char> = slice_of(v, 0, v.len());
    assert(rest@ == v@);
    assert(texts(out@) =~= Seq::<Seq<char>>::empty());
    loop
        invariant
            split_on(v@, c) == texts(out@) + split_on(rest@, c),
        decreases rest.len(),
    {
        match find_char_chars(&rest, c) {
            None => {
                proof {
                    assert(split_on(rest@, c) == seq![rest@]);
                }
                out.push(rest);
                assert(texts(out@) =~= split_on(v@, c));
                return out;
            },
            Some(i) => {
                let head = slice_of(&rest, 0, i);
                let tail = slice_of(&rest, i + 1, rest.len());
                proof {
                    assert(head@ == rest@.take(i as int));
                    assert(tail@ == rest@.skip(i + 1));
                    assert(split_on(rest@, c) == seq![head@] + split_on(tail@, c));
                }
                let ghost before = texts(out@);
                out.push(head);
                assert(texts(out@) =~= before.push(head@));
                assert(texts(out@) + split_on(tail@, c) =~= before + split_on(rest@, c));
                rest = tail;
            },
        }
    }
}

/// The value of a decimal digit.
pub open spec fn digit_value(c: char) -> nat
    recommends
        is_digit(c),
{
    (c as u32 - 0x30) as nat
}

/// The number that the digits of `s` spell.
pub open spec fn digits_value(s: Seq<char>) -> nat
    decreases s.len(),
{
    if s.len() == 0 {
        0
    } else {
        digits_value(s.drop_last()) * 10 + digit_value(s.last())
    }
}

/// The number that `s` spells in decimal, where it spells one that is at
/// most `max`: one or more digits, with or without a plus sign before
/// them.
pub open spec fn parse_decimal(s: Seq<char>, max: nat) -> Option<nat> {
    let digits = if s.len() > 0 && s[0] == '+' {
        s.skip(1)
    } else {
        s
    };
    if digits.len() > 0 && all_digits(digits) && digits_value(digits) <= max {
        Some(digits_value(digits))
    } else {
        None
    }
}

/// The numbers that the digits spell grow with the digits.
pub proof fn lemma_digits_value_grows(s: Seq<char>, n: int)
    requires
        0 <= n <= s.len(),
    ensures
        digits_value(s.take(n)) <= digits_value(s),
    decreases s.len() - n,
{
    if n < s.len() {
        lemma_digits_value_grows(s, n + 1);
        assert(s.take(n + 1).drop_last() =~= s.take(n));
    } else {
        assert(s.take(n) =~= s);
    }
}

/// Reads a decimal number that is at most `max`.
pub fn parse_decimal_chars(v: &Vec<char>, max: u64) -> (r: Option<u64>)
    ensures
        match r {
            Some(n) => parse_decimal(v@, max as nat) == Some(n as nat),
            None => parse_decimal(v@, max as nat) is None,
        },
{
    let start: usize = if v.len() > 0 && v[0] == '+' {
        1
    } else {
        0
    };
    let ghost digits = v@.skip(start as int);
    assert(v@.skip(0) =~= v@);
    if start == v.len() {
        return None;
    }
    let mut acc: u64 = 0;
    let mut i: usize = start;
    assert(digits.take(0) =~= Seq::<char>::empty());
    while i < v.len()
        invariant
            start <= i <= v.len(),
            start < v.len(),
            digits == v@.skip(start as int),
            digits == (if v@.len() > 0 && v@[0] == '+' {
                v@.skip(1)
            } else {
                v@
            }),
            forall|k: int| 0 <= k < i - start ==> is_digit(#[trigger] digits[k]),
            acc == digits_value(digits.take(i - start)),
            acc <= max,
        decreases v.len() - i,
    {
        let c = v[i];
        assert(digits[i - start] == c);
        if !is_digit_char(c) {
            assert(!all_digits(digits));
            return None;
        }
        let d: u64 = (c as u32 - 0x30) as u64;
        proof {
            assert(digits.take(i - start + 1).drop_last() =~= digits.take(i - start));
            assert(digits.take(i - start + 1).last() == c);
            assert(digits_value(digits.take(i - start + 1)) == acc * 10 + d);
            lemma_digits_value_grows(digits, i - start + 1);
        }
        if d > max {
            return None;
        }
        if acc > (max - d) / 10 {
            assert(acc * 10 + d > max) by (nonlinear_arith)
                requires
                    acc > (max - d) / 10,
                    d <= max,
                    d <= 9,
                    acc >= 0,
            ;
            return None;
        }
        assert(acc * 10 + d <= max) by (nonlinear_arith)
            requires
                acc <= (max - d) / 10,
                d <= max,
                acc >= 0,
        ;
        acc = acc * 10 + d;
        i = i + 1;
    }
    assert(digits.take(v.len() - start) =~= digits);
    assert(all_digits(digits));
    Some(acc)
}

// ---------------------------------------------------------------------------
// Lines
// ---------------------------------------------------------------------------

/// A line without the carriage return at its end.
pub open spec fn without_cr(line: Seq<char>) -> Seq<char> {
    if line.len() > 0 && line.last() == '\r' {
        line.drop_last()
    } else {
        line
    }
}

/// The lines of a text. A line ends with a line feed, before which a
/// carriage return may stand; neither belongs to the line. What follows
/// the last line feed is a line where it is not empty.
pub open spec fn lines(s: Seq<char>) -> Seq<Seq<char>> {
    let parts = split_on(s, '\n');
    let ended = parts.drop_last().map_values(|l: Seq<char>| without_cr(l));
    if parts.len() > 0 && parts.last().len() > 0 {
        ended.push(parts.last())
    } else {
        ended
    }
}

/// Splitting gives at least one part.
pub proof fn lemma_split_on_nonempty(s: Seq<char>, c: char)
    ensures
        split_on(s, c).len() > 0,
    decreases s.len(),
{
    match find(s, seq![c]) {
        None => {},
        Some(i) => {
            if 0 <= i < s.len() {
                lemma_split_on_nonempty(s.skip(i + 1), c);
            }
        },
    }
}

/// The lines of a text.
pub fn lines_chars(v: &Vec<char>) -> (r: Vec<Vec<char>>)
    ensures
        texts(r@) == lines(v@),
{
    let parts = split_on_chars(v, '\n');
    proof {
        lemma_split_on_nonempty(v@, '\n');
    }
    let ghost all = texts(parts@);
    let n = parts.len();
    let mut out: Vec<Vec<char>> = Vec::new();
    let mut i: usize = 0;
    assert(texts(out@) =~= all.drop_last().take(0).map_values(|l: Seq<char>| without_cr(l)));
    while i + 1 < n
        invariant
            n == parts.len(),
            n > 0,
            i + 1 <= n,
            all == texts(parts@),
            texts(out@) == all.drop_last().take(i as int).map_values(|l: Seq<char>| without_cr(l)),
        decreases n - i,
    {
        let line = &parts[i];
        let ghost before = texts(out@);
        assert(all[i as int] == line@);
        let end = if line.len() > 0 && line[line.len() - 1] == '\r' {
            line.len() - 1
        } else {
            line.len()
        };
        let bare = slice_of(line, 0, end);
        assert(bare@ =~= without_cr(line@));
        out.push(bare);
        proof {
            assert(texts(out@) =~= before.push(without_cr(line@)));
            assert(all.drop_last()[i as int] == all[i as int]);
            assert(all.drop_last().take(i + 1) =~= all.drop_last().take(i as int).push(
                all[i as int],
            ));
            assert(texts(out@) =~= all.drop_last().take(i + 1).map_values(
                |l: Seq<char>| without_cr(l),
            ));
        }
        i = i + 1;
    }
    assert(all.drop_last().take(i as int) =~= all.drop_last());
    let last = &parts[n - 1];
    assert(all.last() == last@);
    if last.len() > 0 {
        let ghost before = texts(out@);
        let same = slice_of(last, 0, last.len());
        assert(same@ == last@);
        out.push(same);
        assert(texts(out@) =~= before.push(last@));
    }
    out
}

/// The word of `s` at position `n` (from zero), where it has that many.
pub open spec fn nth_word(s: Seq<char>, n: nat) -> Option<Seq<char>> {
    if n < words(s).len() {
        Some(words(s)[n as int])
    } else {
        None
    }
}

/// The parts of `s` before and after the first occurrence of the
/// character `c`.
pub open spec fn split_once(s: Seq<char>, c: char) -> Option<(Seq<char>, Seq<char>)> {
    match find(s, seq![c]) {
        Some(i) => Some((s.take(i), s.skip(i + 1))),
        None => None,
    }
}

pub fn split_once_chars(v: &Vec<char>, c: char) -> (r: Option<(Vec<char>, Vec<char>)>)
    ensures
        match r {
            Some(p) => split_once(v@, c) == Some((p.0@, p.1@)),
            None => split_once(v@, c) is None,
        },
{
    match find_char_chars(v, c) {
        Some(i) => {
            let a = slice_of(v, 0, i);
            let b = slice_of(v, i + 1, v.len());
            assert(a@ == v@.take(i as int));
            assert(b@ == v@.skip(i + 1));
            Some((a, b))
        },
        None => None,
    }
}

/// Whether two texts are equal but for the case of their ASCII letters.
pub open spec fn same_ignoring_case(a: Seq<char>, b: Seq<char>) -> bool {
    ascii_lower(a) == ascii_lower(b)
}

pub fn eq_ignore_case(a: &Vec<char>, b: &str) -> (r: bool)
    ensures
        r == same_ignoring_case(a@, b@),
{
    let x = ascii_lower_chars(a);
    let y = ascii_lower_chars(&chars_of(b));
    chars_eq(&x, &y)
}

} // verus!
