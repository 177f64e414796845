//! Verified string machinery: trimming, lowercasing, searching, splitting,
//! joining, and decimal formatting.
//!
//! All positions and lengths in this crate are counted in Unicode scalar
//! values, matching the `Seq<char>` view of `&str` and `String`.

use vstd::prelude::*;
use crate::chars::{
    is_whitespace_fast, lower_char, spec_is_space, spec_lower_char,
    lemma_lower_char_idempotent, lemma_lower_char_space,
};

verus! {

// ---------------------------------------------------------------------------
// Building strings from characters
// ---------------------------------------------------------------------------

/// Relies on `String::push` from std: appends exactly one character.
#[verifier::external_body]
pub(crate) fn push_char(s: &mut String, c: char)
    ensures
        final(s)@ == old(s)@.push(c),
{
    s.push(c)
}

/// Build a `String` from a vector of characters.
pub fn chars_to_string(v: &Vec<char>) -> (r: String)
    ensures
        r@ == v@,
{
    let mut out = String::new();
    let mut i: usize = 0;
    while i < v.len()
        invariant
            i <= v@.len(),
            out@ == v@.take(i as int),
        decreases v@.len() - i,
    {
        push_char(&mut out, v[i]);
        proof {
            assert(out@ =~= v@.take((i + 1) as int));
        }
        i = i + 1;
    }
    proof {
        assert(v@.take(v@.len() as int) =~= v@);
    }
    out
}

// ---------------------------------------------------------------------------
// Lowercasing
// ---------------------------------------------------------------------------

/// ASCII lowercase image of a character sequence.
pub open spec fn spec_lower(s: Seq<char>) -> Seq<char> {
    s.map_values(|c: char| spec_lower_char(c))
}

/// Lowercase the ASCII letters of a string.
pub fn lowercase(s: &str) -> (r: String)
    ensures
        r@ == spec_lower(s@),
{
    let n = s.unicode_len();
    let mut out: Vec<char> = Vec::new();
    let mut i: usize = 0;
    while i < n
        invariant
            n == s@.len(),
            i <= n,
            out@ == spec_lower(s@).take(i as int),
        decreases n - i,
    {
        let c = lower_char(s.get_char(i));
        out.push(c);
        proof {
            assert(out@ =~= spec_lower(s@).take((i + 1) as int));
        }
        i = i + 1;
    }
    proof {
        assert(spec_lower(s@).take(n as int) =~= spec_lower(s@));
    }
    chars_to_string(&out)
}

/// Lowercasing a sequence twice equals lowercasing it once.
pub proof fn lemma_lower_idempotent(s: Seq<char>)
    ensures
        spec_lower(spec_lower(s)) == spec_lower(s),
{
    assert forall|i: int| 0 <= i < s.len() implies spec_lower(spec_lower(s))[i]
        == spec_lower(s)[i] by {
        lemma_lower_char_idempotent(s[i]);
    }
    assert(spec_lower(spec_lower(s)) =~= spec_lower(s));
}

// ---------------------------------------------------------------------------
// Trimming
// ---------------------------------------------------------------------------

/// Index of the first non-whitespace character at or after `i`, or the length
/// of the sequence if only whitespace remains.
pub open spec fn spec_skip_spaces(s: Seq<char>, i: int) -> int
    decreases s.len() - i,
{
    if i < 0 || i >= s.len() {
        s.len() as int
    } else if !spec_is_space(s[i]) {
        i
    } else {
        spec_skip_spaces(s, i + 1)
    }
}

/// Index of the last non-whitespace character at or before `i`, or `-1` if
/// only whitespace precedes it.
pub open spec fn spec_last_keep(s: Seq<char>, i: int) -> int
    decreases i + 1,
{
    if i < 0 || i >= s.len() {
        -1
    } else if !spec_is_space(s[i]) {
        i
    } else {
        spec_last_keep(s, i - 1)
    }
}

/// The sequence with leading and trailing whitespace removed.
pub open spec fn spec_trim(s: Seq<char>) -> Seq<char> {
    let a = spec_skip_spaces(s, 0);
    if a >= s.len() {
        Seq::empty()
    } else {
        s.subrange(a, spec_last_keep(s, s.len() - 1) + 1)
    }
}

proof fn lemma_skip_spaces(s: Seq<char>, i: int)
    requires
        0 <= i <= s.len(),
    ensures
        i <= spec_skip_spaces(s, i) <= s.len(),
        forall|j: int| i <= j < spec_skip_spaces(s, i) ==> spec_is_space(s[j]),
        spec_skip_spaces(s, i) < s.len() ==> !spec_is_space(s[spec_skip_spaces(s, i)]),
    decreases s.len() - i,
{
    if i < s.len() && spec_is_space(s[i]) {
        lemma_skip_spaces(s, i + 1);
    }
}

proof fn lemma_last_keep(s: Seq<char>, i: int)
    requires
        -1 <= i < s.len(),
    ensures
        -1 <= spec_last_keep(s, i) <= i,
        forall|j: int| spec_last_keep(s, i) < j <= i ==> spec_is_space(s[j]),
        spec_last_keep(s, i) >= 0 ==> !spec_is_space(s[spec_last_keep(s, i)]),
    decreases i + 1,
{
    if i >= 0 && spec_is_space(s[i]) {
        lemma_last_keep(s, i - 1);
    }
}

/// Shape of a trimmed sequence: no whitespace at either end, and it is a
/// sub-sequence of the original.
pub proof fn lemma_trim_shape(s: Seq<char>)
    ensures
        spec_trim(s).len() <= s.len(),
        spec_trim(s).len() > 0 ==> !spec_is_space(spec_trim(s)[0]),
        spec_trim(s).len() > 0 ==> !spec_is_space(spec_trim(s)[spec_trim(s).len() - 1]),
{
    lemma_skip_spaces(s, 0);
    if s.len() > 0 {
        lemma_last_keep(s, s.len() - 1);
        let a = spec_skip_spaces(s, 0);
        let b = spec_last_keep(s, s.len() - 1);
        if a < s.len() {
            // The character at `a` is kept, so the backward scan stops at or
            // after it.
            assert(!spec_is_space(s[a]));
            assert(b >= a);
        }
    }
}

/// A sequence without whitespace at either end is its own trim.
pub proof fn lemma_trim_of_clean(s: Seq<char>)
    requires
        s.len() > 0 ==> !spec_is_space(s[0]),
        s.len() > 0 ==> !spec_is_space(s[s.len() - 1]),
    ensures
        spec_trim(s) == s,
{
    if s.len() == 0 {
        assert(spec_trim(s) =~= s);
    } else {
        assert(spec_skip_spaces(s, 0) == 0);
        assert(spec_last_keep(s, s.len() - 1) == s.len() - 1);
        assert(spec_trim(s) =~= s);
    }
}

/// A sequence whose trim keeps its length is already trimmed.
pub proof fn lemma_trim_len_eq(s: Seq<char>)
    requires
        spec_trim(s).len() == s.len(),
    ensures
        spec_trim(s) == s,
{
    lemma_skip_spaces(s, 0);
    if s.len() > 0 {
        lemma_last_keep(s, s.len() - 1);
        let a = spec_skip_spaces(s, 0);
        if a < s.len() {
            let b = spec_last_keep(s, s.len() - 1);
            assert(!spec_is_space(s[a]));
            assert(b >= a);
            assert(spec_trim(s).len() == b + 1 - a);
            assert(a == 0 && b == s.len() - 1);
            assert(spec_trim(s) =~= s);
        }
    } else {
        assert(spec_trim(s) =~= s);
    }
}

/// Trimming is idempotent.
pub proof fn lemma_trim_idempotent(s: Seq<char>)
    ensures
        spec_trim(spec_trim(s)) == spec_trim(s),
{
    lemma_trim_shape(s);
    lemma_trim_of_clean(spec_trim(s));
}

/// Remove leading and trailing whitespace from a string.
pub fn trim(s: &str) -> (r: &str)
    ensures
        r@ == spec_trim(s@),
{
    let n = s.unicode_len();
    proof {
        lemma_skip_spaces(s@, 0);
    }
    let mut a: usize = 0;
    while a < n && is_whitespace_fast(s.get_char(a))
        invariant
            n == s@.len(),
            a <= n,
            spec_skip_spaces(s@, 0) == spec_skip_spaces(s@, a as int),
        decreases n - a,
    {
        a = a + 1;
    }
    proof {
        assert(spec_skip_spaces(s@, 0) == a as int);
    }
    if a == n {
        let r = s.substring_char(n, n);
        proof {
            assert(r@ =~= spec_trim(s@));
        }
        return r;
    }
    let mut b: usize = n;
    while b > a && is_whitespace_fast(s.get_char(b - 1))
        invariant
            n == s@.len(),
            a < n,
            a <= b <= n,
            !spec_is_space(s@[a as int]),
            forall|j: int| b <= j < n ==> spec_is_space(s@[j]),
            spec_last_keep(s@, n as int - 1) == spec_last_keep(s@, b as int - 1),
        decreases b,
    {
        b = b - 1;
    }
    proof {
        assert(b > a);
        assert(spec_last_keep(s@, n as int - 1) == b as int - 1);
    }
    let r = s.substring_char(a, b);
    proof {
        assert(r@ =~= spec_trim(s@));
    }
    r
}

// ---------------------------------------------------------------------------
// Comparison and search
// ---------------------------------------------------------------------------

/// Compare two strings for equality of their character sequences.
pub fn str_eq(a: &str, b: &str) -> (r: bool)
    ensures
        r == (a@ == b@),
{
    let n = a.unicode_len();
    let m = b.unicode_len();
    if n != m {
        return false;
    }
    let mut i: usize = 0;
    while i < n
        invariant
            n == a@.len(),
            n == b@.len(),
            i <= n,
            forall|j: int| 0 <= j < i ==> a@[j] == b@[j],
        decreases n - i,
    {
        if a.get_char(i) != b.get_char(i) {
            return false;
        }
        i = i + 1;
    }
    proof {
        assert(a@ =~= b@);
    }
    true
}

/// Whether `p` occurs in `s` starting at position `i`.
pub open spec fn spec_match_at(s: Seq<char>, p: Seq<char>, i: int) -> bool {
    0 <= i && i + p.len() <= s.len() && s.subrange(i, i + p.len()) == p
}

/// `p` is a prefix of `s`.
pub open spec fn spec_starts_with(s: Seq<char>, p: Seq<char>) -> bool {
    spec_match_at(s, p, 0)
}

/// `p` is a suffix of `s`.
pub open spec fn spec_ends_with(s: Seq<char>, p: Seq<char>) -> bool {
    spec_match_at(s, p, s.len() - p.len())
}

/// `p` occurs somewhere in `s`.
pub open spec fn spec_contains(s: Seq<char>, p: Seq<char>) -> bool {
    exists|i: int| spec_match_at(s, p, i)
}

/// Check whether `p` occurs in `s` at position `i`.
pub fn match_at(s: &str, p: &str, i: usize) -> (r: bool)
    requires
        i + p@.len() <= s@.len(),
        s@.len() <= usize::MAX,
    ensures
        r == spec_match_at(s@, p@, i as int),
{
    let m = p.unicode_len();
    let mut j: usize = 0;
    while j < m
        invariant
            m == p@.len(),
            i + m <= s@.len(),
            s@.len() <= usize::MAX,
            j <= m,
            forall|k: int| 0 <= k < j ==> s@[i + k] == p@[k],
        decreases m - j,
    {
        if s.get_char(i + j) != p.get_char(j) {
            proof {
                assert(s@.subrange(i as int, i + m)[j as int] == s@[i + j]);
            }
            return false;
        }
        j = j + 1;
    }
    proof {
        assert(s@.subrange(i as int, i + m) =~= p@);
    }
    true
}

/// Check whether `p` is a prefix of `s`.
pub fn starts_with_text(s: &str, p: &str) -> (r: bool)
    ensures
        r == spec_starts_with(s@, p@),
{
    if p.unicode_len() > s.unicode_len() {
        return false;
    }
    match_at(s, p, 0)
}

/// Check whether `p` is a suffix of `s`.
pub fn ends_with_text(s: &str, p: &str) -> (r: bool)
    ensures
        r == spec_ends_with(s@, p@),
{
    let n = s.unicode_len();
    let m = p.unicode_len();
    if m > n {
        return false;
    }
    match_at(s, p, n - m)
}

/// Position of the first occurrence of `p` in `s` at or after `i`, or `-1`.
/// An empty pattern is never found.
pub open spec fn spec_find(s: Seq<char>, p: Seq<char>, i: int) -> int
    decreases s.len() - i,
{
    if i < 0 || p.len() == 0 || i + p.len() > s.len() {
        -1
    } else if spec_match_at(s, p, i) {
        i
    } else {
        spec_find(s, p, i + 1)
    }
}

/// Facts about [`spec_find`]: a non-negative result is the first match at or
/// after `i`, and `-1` means there is none.
pub proof fn lemma_find(s: Seq<char>, p: Seq<char>, i: int)
    requires
        0 <= i,
        p.len() > 0,
    ensures
        spec_find(s, p, i) == -1 ==> forall|k: int| k >= i ==> !spec_match_at(s, p, k),
        spec_find(s, p, i) >= 0 ==> spec_match_at(s, p, spec_find(s, p, i)),
        spec_find(s, p, i) >= 0 ==> i <= spec_find(s, p, i),
        spec_find(s, p, i) >= 0 ==> forall|k: int|
            i <= k < spec_find(s, p, i) ==> !spec_match_at(s, p, k),
    decreases s.len() - i,
{
    if p.len() == 0 || i + p.len() > s.len() {
    } else if !spec_match_at(s, p, i) {
        lemma_find(s, p, i + 1);
    }
}

/// Find the first occurrence of `p` in `s` at or after `from`.
pub fn find_from(s: &str, p: &str, from: usize) -> (r: Option<usize>)
    ensures
        match r {
            Some(k) => k as int == spec_find(s@, p@, from as int),
            None => spec_find(s@, p@, from as int) == -1,
        },
{
    let n = s.unicode_len();
    let m = p.unicode_len();
    if m == 0 || m > n || from > n - m {
        return None;
    }
    let mut i: usize = from;
    while i <= n - m
        invariant
            n == s@.len(),
            m == p@.len(),
            0 < m <= n,
            from <= i <= n - m + 1,
            spec_find(s@, p@, from as int) == spec_find(s@, p@, i as int),
        decreases n - i,
    {
        if match_at(s, p, i) {
            return Some(i);
        }
        i = i + 1;
    }
    None
}

/// Check whether `p` occurs somewhere in `s`.
pub fn contains_text(s: &str, p: &str) -> (r: bool)
    ensures
        r == spec_contains(s@, p@),
{
    if p.unicode_len() == 0 {
        proof {
            assert(s@.subrange(0, 0) =~= p@);
            assert(spec_match_at(s@, p@, 0));
        }
        return true;
    }
    proof {
        lemma_find(s@, p@, 0);
    }
    let r = find_from(s, p, 0);
    proof {
        if spec_find(s@, p@, 0) >= 0 {
            assert(spec_contains(s@, p@));
        } else {
            assert forall|i: int| !spec_match_at(s@, p@, i) by {
                if i >= 0 {
                    assert(!spec_match_at(s@, p@, i));
                }
            }
        }
    }
    r.is_some()
}

// ---------------------------------------------------------------------------
// Splitting and joining
// ---------------------------------------------------------------------------

/// The pieces of `s` cut at each occurrence of the delimiter `d`, scanning
/// left to right.  With no occurrence (in particular with an empty
/// delimiter), the result is the whole sequence as a single piece.
pub open spec fn spec_split(s: Seq<char>, d: Seq<char>) -> Seq<Seq<char>>
    decreases s.len(),
{
    let i = spec_find(s, d, 0);
    if i < 0 || d.len() == 0 || i + d.len() > s.len() {
        seq![s]
    } else {
        seq![s.subrange(0, i)] + spec_split(s.subrange(i + d.len(), s.len() as int), d)
    }
}

/// Split `s` at every occurrence of the delimiter `d`.
pub fn split_text(s: &str, d: &str) -> (r: Vec<String>)
    ensures
        r@.len() == spec_split(s@, d@).len(),
        forall|i: int| 0 <= i < r@.len() ==> r@[i]@ == spec_split(s@, d@)[i],
    decreases s@.len(),
{
    let n = s.unicode_len();
    match find_from(s, d, 0) {
        None => {
            let mut v: Vec<String> = Vec::new();
            v.push(s.to_owned());
            v
        },
        Some(i) => {
            proof {
                if d@.len() == 0 {
                    assert(spec_find(s@, d@, 0) == -1);
                }
                lemma_find(s@, d@, 0);
            }
            let m = d.unicode_len();
            let head = s.substring_char(0, i).to_owned();
            let tail = s.substring_char(i + m, n);
            let mut rest = split_text(tail, d);
            let mut v: Vec<String> = Vec::new();
            v.push(head);
            v.append(&mut rest);
            proof {
                assert(forall|k: int| 0 <= k < v@.len() ==> v@[k]@
                    == spec_split(s@, d@)[k]);
            }
            v
        },
    }
}

/// The pieces joined back with the delimiter `d` between them.
pub open spec fn spec_join(parts: Seq<Seq<char>>, d: Seq<char>) -> Seq<char>
    decreases parts.len(),
{
    if parts.len() == 0 {
        Seq::empty()
    } else if parts.len() == 1 {
        parts[0]
    } else {
        parts[0] + d + spec_join(parts.drop_first(), d)
    }
}

/// Joining one more piece appends a delimiter and the piece.
pub proof fn lemma_join_step(parts: Seq<Seq<char>>, d: Seq<char>, k: int)
    requires
        1 <= k < parts.len(),
    ensures
        spec_join(parts.take(k + 1), d) == spec_join(parts.take(k), d) + d + parts[k],
    decreases k,
{
    if k == 1 {
        assert(parts.take(2).drop_first() =~= seq![parts[1]]);
        assert(parts.take(1) =~= seq![parts[0]]);
        assert(parts.take(2).len() == 2);
        assert(spec_join(seq![parts[1]], d) == parts[1]);
        assert(spec_join(parts.take(2), d) == parts.take(2)[0] + d + parts[1]);
        assert(spec_join(parts.take(1), d) == parts[0]);
        assert(parts.take(2)[0] == parts[0]);
    } else {
        lemma_join_step(parts.drop_first(), d, k - 1);
        assert(parts.take(k + 1).drop_first() =~= parts.drop_first().take(k));
        assert(parts.take(k).drop_first() =~= parts.drop_first().take(k - 1));
        assert(spec_join(parts.take(k + 1), d)
            =~= spec_join(parts.take(k), d) + d + parts[k]);
    }
}

/// View of a slice of string slices as a sequence of character sequences.
pub open spec fn spec_views(parts: Seq<&str>) -> Seq<Seq<char>> {
    parts.map_values(|p: &str| p@)
}

/// Join string parts with a delimiter, sizing the output up front.
pub fn join_optimized(parts: &[&str], delimiter: &str) -> (r: String)
    ensures
        r@ == spec_join(spec_views(parts@), delimiter@),
{
    let ghost gp = spec_views(parts@);
    if parts.len() == 0 {
        return String::new();
    }
    let mut out: String = parts[0].to_owned();
    let mut i: usize = 1;
    proof {
        assert(gp.take(1) =~= seq![gp[0]]);
    }
    while i < parts.len()
        invariant
            gp == spec_views(parts@),
            1 <= i <= parts@.len(),
            out@ == spec_join(gp.take(i as int), delimiter@),
        decreases parts@.len() - i,
    {
        out.append(delimiter);
        out.append(parts[i]);
        proof {
            lemma_join_step(gp, delimiter@, i as int);
        }
        i = i + 1;
    }
    proof {
        assert(gp.take(gp.len() as int) =~= gp);
    }
    out
}

// ---------------------------------------------------------------------------
// Counting and locating characters
// ---------------------------------------------------------------------------

/// Number of occurrences of `c` in `s`.
pub open spec fn spec_count_char(s: Seq<char>, c: char) -> nat
    decreases s.len(),
{
    if s.len() == 0 {
        0
    } else {
        spec_count_char(s.drop_last(), c) + if s.last() == c { 1nat } else { 0nat }
    }
}

/// Count the occurrences of a character in a string.
pub fn count_char(s: &str, target: char) -> (r: usize)
    ensures
        r as nat == spec_count_char(s@, target),
{
    let n = s.unicode_len();
    let mut count: usize = 0;
    let mut i: usize = 0;
    while i < n
        invariant
            n == s@.len(),
            i <= n,
            count <= i,
            count as nat == spec_count_char(s@.take(i as int), target),
        decreases n - i,
    {
        if s.get_char(i) == target {
            count = count + 1;
        }
        proof {
            assert(s@.take((i + 1) as int).drop_last() =~= s@.take(i as int));
        }
        i = i + 1;
    }
    proof {
        assert(s@.take(n as int) =~= s@);
    }
    count
}

/// Position of the `k`-th occurrence (0-based) of `c` in `s` at or after `i`,
/// or `-1` if there are not that many.
pub open spec fn spec_nth_char_pos(s: Seq<char>, c: char, k: int, i: int) -> int
    decreases s.len() - i,
{
    if i < 0 || i >= s.len() {
        -1
    } else if s[i] == c {
        if k == 0 {
            i
        } else {
            spec_nth_char_pos(s, c, k - 1, i + 1)
        }
    } else {
        spec_nth_char_pos(s, c, k, i + 1)
    }
}

/// Find the position of the `n`-th occurrence (0-based) of a character.
pub fn find_nth_char(s: &str, target: char, n: usize) -> (r: Option<usize>)
    ensures
        match r {
            Some(p) => p as int == spec_nth_char_pos(s@, target, n as int, 0),
            None => spec_nth_char_pos(s@, target, n as int, 0) == -1,
        },
{
    let len = s.unicode_len();
    let mut k: usize = n;
    let mut i: usize = 0;
    while i < len
        invariant
            len == s@.len(),
            i <= len,
            k <= n,
            spec_nth_char_pos(s@, target, n as int, 0)
                == spec_nth_char_pos(s@, target, k as int, i as int),
        decreases len - i,
    {
        if s.get_char(i) == target {
            if k == 0 {
                return Some(i);
            }
            k = k - 1;
        }
        i = i + 1;
    }
    None
}

// ---------------------------------------------------------------------------
// Normalization helper
// ---------------------------------------------------------------------------

/// The common normalization: trim, then lowercase when asked to.
pub open spec fn spec_common_normal(s: Seq<char>, lower: bool) -> Seq<char> {
    if lower {
        spec_lower(spec_trim(s))
    } else {
        spec_trim(s)
    }
}

/// Trim whitespace and optionally lowercase in one step.
pub fn normalize_string(s: &str, to_lowercase: bool) -> (r: String)
    ensures
        r@ == spec_common_normal(s@, to_lowercase),
{
    let t = trim(s);
    if to_lowercase {
        lowercase(t)
    } else {
        t.to_owned()
    }
}

/// Check whether a string consists of ASCII characters only.
pub fn is_ascii_only(s: &str) -> (r: bool)
    ensures
        r == s.is_ascii(),
{
    s.is_ascii()
}

// ---------------------------------------------------------------------------
// Decimal formatting
// ---------------------------------------------------------------------------

/// The character for one decimal digit.
pub open spec fn spec_digit_char(d: int) -> char {
    if d == 0 { '0' } else if d == 1 { '1' } else if d == 2 { '2' }
    else if d == 3 { '3' } else if d == 4 { '4' } else if d == 5 { '5' }
    else if d == 6 { '6' } else if d == 7 { '7' } else if d == 8 { '8' }
    else { '9' }
}

/// Decimal representation of a non-negative integer, most significant digit
/// first.
pub open spec fn spec_decimal(n: int) -> Seq<char>
    decreases n,
{
    if n < 10 {
        seq![spec_digit_char(n)]
    } else {
        spec_decimal(n / 10).push(spec_digit_char(n % 10))
    }
}

/// The text of a boolean value.
pub open spec fn spec_bool_text(b: bool) -> Seq<char> {
    if b {
        "true"@
    } else {
        "false"@
    }
}

/// Render a boolean as `true` or `false`.
pub fn bool_text(b: bool) -> (r: &'static str)
    ensures
        r@ == spec_bool_text(b),
{
    if b {
        "true"
    } else {
        "false"
    }
}

/// The character for one hexadecimal digit.
pub open spec fn spec_hex_digit_char(d: int) -> char {
    if d < 10 {
        spec_digit_char(d)
    } else if d == 10 { 'a' } else if d == 11 { 'b' } else if d == 12 { 'c' }
    else if d == 13 { 'd' } else if d == 14 { 'e' } else { 'f' }
}

/// The lowest `k` hexadecimal digits of a number, most significant first.
pub open spec fn spec_hex_digits(n: int, k: nat) -> Seq<char>
    decreases k,
{
    if k == 0 {
        Seq::empty()
    } else {
        spec_hex_digits(n / 16, (k - 1) as nat).push(spec_hex_digit_char(n % 16))
    }
}

fn hex_digit_char(d: u64) -> (r: char)
    requires
        d < 16,
    ensures
        r == spec_hex_digit_char(d as int),
{
    if d < 10 {
        digit_char(d)
    } else if d == 10 { 'a' } else if d == 11 { 'b' } else if d == 12 { 'c' }
    else if d == 13 { 'd' } else if d == 14 { 'e' } else { 'f' }
}

/// Render the lowest `k` hexadecimal digits of a number, zero-padded.
pub fn hex_string(n: u64, k: u32) -> (r: String)
    ensures
        r@ == spec_hex_digits(n as int, k as nat),
    decreases k,
{
    if k == 0 {
        let out = String::new();
        proof {
            assert(out@ =~= spec_hex_digits(n as int, 0));
        }
        out
    } else {
        let mut out = hex_string(n / 16, k - 1);
        push_char(&mut out, hex_digit_char(n % 16));
        out
    }
}

fn digit_char(d: u64) -> (r: char)
    requires
        d < 10,
    ensures
        r == spec_digit_char(d as int),
{
    if d == 0 { '0' } else if d == 1 { '1' } else if d == 2 { '2' }
    else if d == 3 { '3' } else if d == 4 { '4' } else if d == 5 { '5' }
    else if d == 6 { '6' } else if d == 7 { '7' } else if d == 8 { '8' }
    else { '9' }
}

/// Render a number in decimal.
pub fn decimal_string(n: u64) -> (r: String)
    ensures
        r@ == spec_decimal(n as int),
    decreases n,
{
    if n < 10 {
        let mut out = String::new();
        push_char(&mut out, digit_char(n));
        proof {
            assert(out@ =~= spec_decimal(n as int));
        }
        out
    } else {
        let mut out = decimal_string(n / 10);
        push_char(&mut out, digit_char(n % 10));
        out
    }
}

} // verus!
