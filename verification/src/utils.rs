//! Helpers around keys: optimized string composition, position caching for
//! repeated splits, conversions to and from the small-string storage, memory
//! estimates, and consistency checks.

use vstd::prelude::*;
use vstd::string::StringSliceAdditionalSpecFns;
use crate::domain::KeyDomain;
use crate::key::{
    compute_hash, make_split_iterator, smart_from_str, smart_into_string, smart_view, spec_hash,
    Key, KeyStorage, SplitIterator,
};
use crate::text::{
    decimal_string, hex_string, join_optimized, spec_decimal, spec_hex_digits, spec_join,
    spec_split, spec_views, str_eq,
};

verus! {

// ---------------------------------------------------------------------------
// String composition
// ---------------------------------------------------------------------------

/// Prepend a prefix to a key's text in one allocation.  The length bound is
/// advisory sizing information and does not change the result.
pub fn add_prefix_optimized(key: &str, prefix: &str, max_length: usize) -> (r: String)
    ensures
        r@ == prefix@ + key@,
{
    let mut out = prefix.to_owned();
    out.append(key);
    out
}

/// Append a suffix to a key's text in one allocation.  The length bound is
/// advisory sizing information and does not change the result.
pub fn add_suffix_optimized(key: &str, suffix: &str, max_length: usize) -> (r: String)
    ensures
        r@ == key@ + suffix@,
{
    let mut out = key.to_owned();
    out.append(suffix);
    out
}

/// Split a string at a delimiter character, as a fresh single-pass
/// iterator over the pieces.
pub fn new_split_cache(s: &str, delimiter: char) -> (r: SplitIterator)
    ensures
        r@ == spec_split(s@, seq![delimiter]),
{
    make_split_iterator(s, delimiter)
}

/// Join string parts with a separator; the composition counterpart of the
/// split helpers.
pub fn parts_to_string(parts: &[&str], separator: &str) -> (r: String)
    ensures
        r@ == spec_join(spec_views(parts@), separator@),
{
    join_optimized(parts, separator)
}

/// Copy a string into a buffer of exactly its length, dropping any excess
/// capacity the original allocation carried.
pub fn optimize_string_allocation(s: String) -> (r: String)
    ensures
        r@ == s@,
{
    let mut out = String::new();
    out.append(s.as_str());
    out
}

// ---------------------------------------------------------------------------
// Conversions to and from the small-string storage
// ---------------------------------------------------------------------------

/// Copy a string slice into the small-string storage keys use.
pub fn str_to_smart_string(s: &str) -> (r: KeyStorage)
    ensures
        smart_view(r) == s@,
{
    smart_from_str(s)
}

/// Unwrap the small-string storage into an ordinary string.
pub fn smart_string_to_string(s: KeyStorage) -> (r: String)
    ensures
        r@ == smart_view(s),
{
    smart_into_string(s)
}

// ---------------------------------------------------------------------------
// Memory estimates
// ---------------------------------------------------------------------------

/// Estimated memory footprint of an ordinary string with the given
/// content: the string object itself plus its heap bytes.
pub fn string_memory_usage(s: &str) -> (r: usize)
    ensures
        ({
            let total = vstd::layout::size_of::<String>() + s.spec_bytes().len() as usize;
            r == if total <= usize::MAX {
                total as usize
            } else {
                usize::MAX
            }
        }),
{
    let object = core::mem::size_of::<String>();
    object.saturating_add(s.len())
}

/// Estimated memory footprint of the small-string storage with the given
/// content: just the object for short texts stored inline, the object plus
/// the heap bytes for longer ones.
pub fn smart_string_memory_usage(s: &str) -> (r: usize)
    ensures
        s.spec_bytes().len() as usize <= 23 ==> r == vstd::layout::size_of::<
            KeyStorage,
        >() as usize,
        s.spec_bytes().len() as usize > 23 ==> ({
            let total = vstd::layout::size_of::<KeyStorage>() + s.spec_bytes().len() as usize;
            r == if total <= usize::MAX {
                total as usize
            } else {
                usize::MAX
            }
        }),
{
    let object = core::mem::size_of::<KeyStorage>();
    if s.len() <= 23 {
        object
    } else {
        object.saturating_add(s.len())
    }
}

/// The capacity reached by doubling `cap` until it covers `total`.
pub open spec fn spec_grown_capacity(cap: nat, total: nat) -> nat
    decreases (if total >= cap { total - cap } else { 0 }),
{
    if cap >= total || cap == 0 {
        cap
    } else {
        spec_grown_capacity(cap * 2, total)
    }
}

/// Recommended capacity for growing a string: the next doubling of 32 that
/// holds the current content plus the addition.
pub fn optimal_capacity(current_len: usize, additional_len: usize) -> (r: usize)
    requires
        current_len + additional_len <= usize::MAX / 2 + 1,
    ensures
        r == spec_grown_capacity(32, (current_len + additional_len) as nat),
{
    let total = current_len + additional_len;
    let mut cap: usize = 32;
    while cap < total
        invariant
            32 <= cap,
            total <= usize::MAX / 2 + 1,
            spec_grown_capacity(32, total as nat) == spec_grown_capacity(cap as nat, total as nat),
        decreases (if total >= cap { total - cap } else { 0 }),
    {
        cap = cap * 2;
    }
    cap
}

// ---------------------------------------------------------------------------
// Character replacement
// ---------------------------------------------------------------------------

/// Replace characters one for one with a caller-supplied mapping: where the
/// mapping offers a replacement it is used, elsewhere the character stays.
pub fn replace_chars<F: Fn(char) -> Option<char>>(s: &str, replacer: F) -> (r: String)
    requires
        forall|c: char| replacer.requires((c,)),
    ensures
        r@.len() == s@.len(),
        forall|i: int| 0 <= i < r@.len()
            ==> call_ensures(replacer, (s@[i],), Some(#[trigger] r@[i]))
                || (call_ensures(replacer, (s@[i],), None::<char>) && r@[i] == s@[i]),
{
    let n = s.unicode_len();
    let mut out: Vec<char> = Vec::new();
    let mut i: usize = 0;
    while i < n
        invariant
            n == s@.len(),
            i <= n,
            out@.len() == i,
            forall|c: char| replacer.requires((c,)),
            forall|j: int| 0 <= j < i
                ==> call_ensures(replacer, (s@[j],), Some(#[trigger] out@[j]))
                    || (call_ensures(replacer, (s@[j],), None::<char>) && out@[j] == s@[j]),
        decreases n - i,
    {
        let c = s.get_char(i);
        let res = replacer(c);
        let replaced = match res {
            Some(x) => x,
            None => c,
        };
        out.push(replaced);
        proof {
            assert(call_ensures(replacer, (s@[i as int],), res));
            assert(out@[i as int] == replaced);
            match res {
                Some(x) => {
                    assert(res == Some(out@[i as int]));
                },
                None => {
                    assert(out@[i as int] == s@[i as int]);
                },
            }
        }
        i = i + 1;
    }
    crate::text::chars_to_string(&out)
}

// ---------------------------------------------------------------------------
// Position cache for repeated splits
// ---------------------------------------------------------------------------

/// The positions at which a character occurs in a sequence, in order.
pub open spec fn spec_char_positions(s: Seq<char>, c: char) -> Seq<int>
    decreases s.len(),
{
    if s.len() == 0 {
        Seq::empty()
    } else {
        let prefix = spec_char_positions(s.drop_last(), c);
        if s.last() == c {
            prefix.push(s.len() - 1)
        } else {
            prefix
        }
    }
}

/// The positions of a character are strictly increasing and in range.
proof fn lemma_char_positions(s: Seq<char>, c: char)
    ensures
        spec_char_positions(s, c).len() <= s.len(),
        forall|i: int| 0 <= i < spec_char_positions(s, c).len()
            ==> 0 <= #[trigger] spec_char_positions(s, c)[i] < s.len(),
        forall|i: int, j: int| 0 <= i < j < spec_char_positions(s, c).len()
            ==> #[trigger] spec_char_positions(s, c)[i] < #[trigger] spec_char_positions(s, c)[j],
    decreases s.len(),
{
    if s.len() > 0 {
        lemma_char_positions(s.drop_last(), c);
    }
}

/// A cache of the delimiter positions inside one string, speeding up
/// repeated part lookups.
pub struct PositionCache {
    delimiter: char,
    positions: Vec<usize>,
    cached_for: String,
}

impl PositionCache {
    #[verifier::type_invariant]
    spec fn wf(self) -> bool {
        &&& self.positions@.len() == spec_char_positions(self.cached_for@, self.delimiter).len()
        &&& forall|i: int| 0 <= i < self.positions@.len()
            ==> self.positions@[i] as int
                == spec_char_positions(self.cached_for@, self.delimiter)[i]
        &&& self.cached_for@.len() <= usize::MAX
    }

    /// The string the cache was built for.
    pub closed spec fn spec_text(self) -> Seq<char> {
        self.cached_for@
    }

    /// The delimiter the cache was built for.
    pub closed spec fn spec_delimiter(self) -> char {
        self.delimiter
    }

    /// Build the cache for a string and a delimiter.
    pub fn new(s: &str, delimiter: char) -> (r: Self)
        ensures
            r.spec_text() == s@,
            r.spec_delimiter() == delimiter,
    {
        let ghost gp = spec_char_positions(s@, delimiter);
        let n = s.unicode_len();
        let mut positions: Vec<usize> = Vec::new();
        let mut i: usize = 0;
        proof {
            assert(s@.take(0) =~= Seq::<char>::empty());
        }
        while i < n
            invariant
                n == s@.len(),
                i <= n,
                positions@.len() == spec_char_positions(s@.take(i as int), delimiter).len(),
                forall|j: int| 0 <= j < positions@.len()
                    ==> positions@[j] as int
                        == spec_char_positions(s@.take(i as int), delimiter)[j],
            decreases n - i,
        {
            proof {
                assert(s@.take((i + 1) as int).drop_last() =~= s@.take(i as int));
                assert(s@.take((i + 1) as int).last() == s@[i as int]);
            }
            if s.get_char(i) == delimiter {
                positions.push(i);
            }
            i = i + 1;
        }
        proof {
            assert(s@.take(n as int) =~= s@);
        }
        PositionCache { delimiter, positions, cached_for: s.to_owned() }
    }

    /// Whether the cache was built for exactly this string and delimiter.
    pub fn is_valid_for(&self, s: &str, delimiter: char) -> (r: bool)
        ensures
            r == (self.spec_delimiter() == delimiter && self.spec_text() == s@),
    {
        self.delimiter == delimiter && str_eq(self.cached_for.as_str(), s)
    }

    /// The cached delimiter positions.
    pub fn positions(&self) -> (r: &[usize])
        ensures
            r@.len() == spec_char_positions(self.spec_text(), self.spec_delimiter()).len(),
            forall|i: int| 0 <= i < r@.len()
                ==> r@[i] as int
                    == spec_char_positions(self.spec_text(), self.spec_delimiter())[i],
    {
        proof {
            use_type_invariant(self);
        }
        self.positions.as_slice()
    }

    /// How many parts the cached string splits into: one more than the
    /// number of delimiters.
    pub fn part_count(&self) -> (r: usize)
        ensures
            ({
                let np = spec_char_positions(self.spec_text(), self.spec_delimiter()).len();
                r == if np < usize::MAX {
                    (np + 1) as usize
                } else {
                    usize::MAX
                }
            }),
    {
        proof {
            use_type_invariant(self);
            lemma_char_positions(self.cached_for@, self.delimiter);
        }
        self.positions.len().saturating_add(1)
    }

    /// The scalar range of the `n`-th part of the cached string: from just
    /// past the previous delimiter to the next one.
    pub open spec fn spec_part_range(positions: Seq<int>, len: int, n: int) -> (int, int) {
        (
            if n == 0 {
                0
            } else {
                positions[n - 1] + 1
            },
            if n == positions.len() {
                len
            } else {
                positions[n]
            },
        )
    }

    /// The `n`-th part of the cached string, or `None` past the last part.
    pub fn get_part(&self, n: usize) -> (r: Option<&str>)
        ensures
            ({
                let positions = spec_char_positions(self.spec_text(), self.spec_delimiter());
                match r {
                    Some(t) => n <= positions.len() && t@ == self.spec_text().subrange(
                        Self::spec_part_range(positions, self.spec_text().len() as int,
                            n as int).0,
                        Self::spec_part_range(positions, self.spec_text().len() as int,
                            n as int).1,
                    ),
                    None => n > positions.len(),
                }
            }),
    {
        proof {
            use_type_invariant(self);
            lemma_char_positions(self.cached_for@, self.delimiter);
        }
        if n > self.positions.len() {
            return None;
        }
        let len = self.cached_for.as_str().unicode_len();
        let start = if n == 0 {
            0
        } else {
            self.positions[n - 1] + 1
        };
        let end = if n == self.positions.len() {
            len
        } else {
            self.positions[n]
        };
        Some(self.cached_for.as_str().substring_char(start, end))
    }
}

// ---------------------------------------------------------------------------
// Key debugging
// ---------------------------------------------------------------------------

/// A snapshot of a key's internal state for debugging.
#[derive(Debug, Clone)]
pub struct KeyDebugInfo {
    /// The key's text.
    pub content: String,
    /// The cached hash value.
    pub hash: u64,
    /// The cached length.
    pub length: u32,
    /// The domain name.
    pub domain: &'static str,
    /// Estimated memory footprint in bytes.
    pub memory_bytes: usize,
}

/// Collect a key's internal state for debugging.
pub fn key_debug_info<T: KeyDomain>(key: &Key<T>) -> (r: KeyDebugInfo)
    ensures
        r.content@ == key@,
        r.hash == spec_hash(key@),
        r.length == key@.len(),
        r.domain@ == T::DOMAIN_NAME@,
{
    let content = key.as_str().to_owned();
    let hash = key.hash();
    let length = key.len();
    let storage = smart_string_memory_usage(key.as_str());
    let memory_bytes = storage.saturating_add(core::mem::size_of::<u64>()).saturating_add(
        core::mem::size_of::<u32>(),
    );
    KeyDebugInfo { content, hash, length: length as u32, domain: key.domain(), memory_bytes }
}

/// Render a key's internal state for debugging.
pub fn format_key_debug<T: KeyDomain>(key: &Key<T>) -> (r: String)
    ensures
        r@ == "Key Debug Info:\n  Content: '"@ + key@ + "'\n  Hash: 0x"@
            + spec_hex_digits(spec_hash(key@) as int, 16) + "\n  Length: "@
            + spec_decimal(key@.len() as int) + "\n  Domain: '"@ + T::DOMAIN_NAME@ + "'"@,
{
    let mut out = "Key Debug Info:\n  Content: '".to_owned();
    out.append(key.as_str());
    out.append("'\n  Hash: 0x");
    let hex = hex_string(key.hash(), 16);
    out.append(hex.as_str());
    out.append("\n  Length: ");
    let num = decimal_string(key.len() as u64);
    out.append(num.as_str());
    out.append("\n  Domain: '");
    out.append(key.domain());
    out.append("'");
    out
}

/// Check that a key's caches agree with its text; they always do, so the
/// result is always `Ok`.
pub fn validate_key_consistency<T: KeyDomain>(key: &Key<T>) -> (r: Result<(), String>)
    ensures
        r is Ok,
{
    let actual_length = key.as_str().unicode_len();
    if key.len() != actual_length {
        let mut m = "Length mismatch: cached=".to_owned();
        let c = decimal_string(key.len() as u64);
        m.append(c.as_str());
        m.append(", actual=");
        let a = decimal_string(actual_length as u64);
        m.append(a.as_str());
        return Err(m);
    }
    let expected_hash = compute_hash(key.as_str());
    if key.hash() != expected_hash {
        let mut m = "Hash mismatch: cached=0x".to_owned();
        let c = hex_string(key.hash(), 16);
        m.append(c.as_str());
        m.append(", expected=0x");
        let e = hex_string(expected_hash, 16);
        m.append(e.as_str());
        return Err(m);
    }
    Ok(())
}

// ---------------------------------------------------------------------------
// Character sets
// ---------------------------------------------------------------------------

/// The ASCII letters and digits.
pub const ASCII_ALPHANUMERIC: &'static str =
    "0123456789ABCDEFGHIJKLMNOPQRSTUVWXYZabcdefghijklmnopqrstuvwxyz";

/// The common separator characters.
pub const SEPARATORS: &'static str = "_-./:";

/// The whitespace characters the trimming step removes.
pub const WHITESPACE: &'static str = " \t\n\r\x0B\x0C";

/// Whether a character occurs in a set given as a string.
pub fn char_in_set(c: char, set: &str) -> (r: bool)
    ensures
        r == set@.contains(c),
{
    let n = set.unicode_len();
    let mut i: usize = 0;
    while i < n
        invariant
            n == set@.len(),
            i <= n,
            forall|j: int| 0 <= j < i ==> set@[j] != c,
        decreases n - i,
    {
        if set.get_char(i) == c {
            return true;
        }
        i = i + 1;
    }
    proof {
        assert(!set@.contains(c));
    }
    false
}

/// All characters the generic key alphabet accepts, as one string.
pub fn basic_key_chars() -> (r: String)
    ensures
        r@ == ASCII_ALPHANUMERIC@ + "_-."@,
{
    let mut out = ASCII_ALPHANUMERIC.to_owned();
    out.append("_-.");
    out
}

} // verus!
