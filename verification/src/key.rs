//! The key value type and its construction pipeline.
//!
//! [`Key`] wraps a normalized, validated string together with a cached
//! 64-bit hash and a cached scalar length.  Construction runs the pipeline
//! in a fixed order: trim, length bounds, character and structure scan,
//! normalization, domain acceptance rule.  [`spec_construct`] states that
//! pipeline mathematically, and every constructor is proved to agree with
//! it, error for error.

use vstd::prelude::*;
use core::marker::PhantomData;
use smartstring::alias::String as SmartString;
use crate::chars::{is_ascii_allowed_fast, spec_is_key_char, spec_lower_char};
use crate::domain::{spec_domain_normal, KeyDomain};
use crate::error::{ErrorSpec, KeyParseError};
use crate::text::{
    contains_text, ends_with_text, join_optimized, lowercase, push_char, spec_contains,
    spec_ends_with, spec_join, spec_lower, spec_split, spec_starts_with, spec_trim, spec_views,
    split_text, starts_with_text, str_eq, trim,
};

verus! {

/// Default upper bound on key length, in scalar values, used when a domain
/// does not choose its own.
pub const DEFAULT_MAX_KEY_LENGTH: usize = 64;

// ---------------------------------------------------------------------------
// Storage: a small-string buffer from the `smartstring` crate
// ---------------------------------------------------------------------------

/// Key storage: a small-string buffer from the `smartstring` crate, which
/// keeps short texts inline on the stack and spills long ones to the heap.
#[verifier::external_body]
pub struct KeyStorage {
    data: SmartString,
}

/// The text a [`KeyStorage`] buffer holds, as a character sequence.
pub uninterp spec fn smart_view(s: KeyStorage) -> Seq<char>;

/// Relies on `From<&str>` for `smartstring::SmartString`: the buffer stores
/// exactly the input text.
#[verifier::external_body]
pub(crate) fn smart_from_str(s: &str) -> (r: KeyStorage)
    ensures
        smart_view(r) == s@,
{
    KeyStorage { data: SmartString::from(s) }
}

/// Relies on `smartstring::SmartString::as_str`: returns the stored text.
#[verifier::external_body]
pub(crate) fn smart_as_str(s: &KeyStorage) -> (r: &str)
    ensures
        r@ == smart_view(*s),
{
    s.data.as_str()
}

/// Relies on `Clone` for `smartstring::SmartString`: the copy stores the
/// same text.
#[verifier::external_body]
fn smart_clone(s: &KeyStorage) -> (r: KeyStorage)
    ensures
        smart_view(r) == smart_view(*s),
{
    KeyStorage { data: s.data.clone() }
}

/// Relies on `From<smartstring::SmartString>` for `String`: unwraps to the
/// same text.
#[verifier::external_body]
pub(crate) fn smart_into_string(s: KeyStorage) -> (r: String)
    ensures
        r@ == smart_view(s),
{
    String::from(s.data)
}

// ---------------------------------------------------------------------------
// The hash capability
// ---------------------------------------------------------------------------

/// The 64-bit digest prefix that the configured hash function assigns to a
/// character sequence.  It depends on the characters alone.
pub uninterp spec fn spec_blake3_hash64(s: Seq<char>) -> u64;

/// Relies on `blake3::hash`: a deterministic function of the input bytes
/// alone.  The result is the first eight digest bytes read little-endian.
#[verifier::external_body]
fn blake3_hash64(s: &str) -> (r: u64)
    ensures
        r == spec_blake3_hash64(s@),
{
    let digest = blake3::hash(s.as_bytes());
    let b = digest.as_bytes();
    u64::from_le_bytes([b[0], b[1], b[2], b[3], b[4], b[5], b[6], b[7]])
}

/// The hash value cached inside a key: zero for empty text, otherwise the
/// configured 64-bit hash of the text.
pub open spec fn spec_hash(s: Seq<char>) -> u64 {
    if s.len() == 0 {
        0
    } else {
        spec_blake3_hash64(s)
    }
}

/// Compute the hash a key would cache for the given text.
pub fn compute_hash(key: &str) -> (r: u64)
    ensures
        r == spec_hash(key@),
{
    if key.is_empty() {
        0
    } else {
        blake3_hash64(key)
    }
}

// ---------------------------------------------------------------------------
// The character and structure scan
// ---------------------------------------------------------------------------

/// Whether the character at position `i` passes the scan: the first
/// character may satisfy the generic fast path or the domain's start rule,
/// later ones the fast path or the domain's general rule.
pub open spec fn spec_char_ok<T: KeyDomain>(s: Seq<char>, i: int) -> bool {
    if i == 0 {
        spec_is_key_char(s[0]) || T::spec_allowed_start(s[0])
    } else {
        spec_is_key_char(s[i]) || T::spec_allowed(s[i])
    }
}

/// The scan over positions `i..`, in order: each position is checked for an
/// allowed character, each pair of neighbours for allowed adjacency, and
/// after the last position the end rule is applied.  The result is the
/// first failure, or success.
pub open spec fn spec_scan<T: KeyDomain>(s: Seq<char>, i: int) -> Result<(), ErrorSpec>
    decreases s.len() - i,
{
    if i < 0 || i > s.len() {
        Ok(())
    } else if i == s.len() {
        if s.len() > 0 && !T::spec_allowed_end(s[s.len() - 1]) {
            Err(ErrorSpec::InvalidStructure { reason: "invalid end character"@ })
        } else {
            Ok(())
        }
    } else if !spec_char_ok::<T>(s, i) {
        Err(ErrorSpec::InvalidCharacter {
            character: s[i],
            position: i,
            expected: Some("allowed by domain"@),
        })
    } else if i >= 1 && !T::spec_allowed_adjacent(s[i - 1], s[i]) {
        Err(ErrorSpec::InvalidStructure { reason: "consecutive characters not allowed"@ })
    } else {
        spec_scan::<T>(s, i + 1)
    }
}

/// Run the character and structure scan over a string.
pub(crate) fn validate_fast<T: KeyDomain>(key: &str) -> (r: Result<(), KeyParseError>)
    ensures
        match r {
            Ok(u) => spec_scan::<T>(key@, 0) == Ok::<(), ErrorSpec>(()),
            Err(e) => spec_scan::<T>(key@, 0) == Err::<(), ErrorSpec>(e@),
        },
{
    let n = key.unicode_len();
    let mut i: usize = 0;
    while i < n
        invariant
            n == key@.len(),
            i <= n,
            spec_scan::<T>(key@, 0) == spec_scan::<T>(key@, i as int),
        decreases n - i,
    {
        let c = key.get_char(i);
        let char_allowed = if i == 0 {
            is_ascii_allowed_fast(c) || T::allowed_start_character(c)
        } else {
            is_ascii_allowed_fast(c) || T::allowed_characters(c)
        };
        if !char_allowed {
            return Err(KeyParseError::InvalidCharacter {
                character: c,
                position: i,
                expected: Some("allowed by domain"),
            });
        }
        if i >= 1 {
            let prev = key.get_char(i - 1);
            if !T::allowed_consecutive_characters(prev, c) {
                return Err(KeyParseError::InvalidStructure {
                    reason: "consecutive characters not allowed",
                });
            }
        }
        i = i + 1;
    }
    if n > 0 {
        let last = key.get_char(n - 1);
        if !T::allowed_end_character(last) {
            return Err(KeyParseError::InvalidStructure { reason: "invalid end character" });
        }
    }
    Ok(())
}

// ---------------------------------------------------------------------------
// The common validation pipeline
// ---------------------------------------------------------------------------

/// The common validation every domain shares: trim, reject empty text,
/// check both length bounds, and run the scan on the trimmed text.
pub open spec fn spec_validate_common<T: KeyDomain>(s: Seq<char>) -> Result<(), ErrorSpec> {
    let t = spec_trim(s);
    if t.len() == 0 {
        Err(ErrorSpec::Empty)
    } else if t.len() > T::MAX_LENGTH {
        Err(ErrorSpec::TooLong {
            max_length: T::MAX_LENGTH as int,
            actual_length: t.len() as int,
        })
    } else if t.len() < T::MIN_LENGTH {
        Err(ErrorSpec::TooLong {
            max_length: T::MIN_LENGTH as int,
            actual_length: t.len() as int,
        })
    } else {
        spec_scan::<T>(t, 0)
    }
}

/// Run the common validation pipeline.
pub(crate) fn validate_common<T: KeyDomain>(key: &str) -> (r: Result<(), KeyParseError>)
    ensures
        match r {
            Ok(u) => spec_validate_common::<T>(key@) == Ok::<(), ErrorSpec>(()),
            Err(e) => spec_validate_common::<T>(key@) == Err::<(), ErrorSpec>(e@),
        },
{
    let trimmed = trim(key);
    let len = trimmed.unicode_len();
    if len == 0 {
        return Err(KeyParseError::Empty);
    }
    if len > T::MAX_LENGTH {
        return Err(KeyParseError::TooLong { max_length: T::MAX_LENGTH, actual_length: len });
    }
    if len < T::min_length() {
        return Err(KeyParseError::TooLong { max_length: T::MIN_LENGTH, actual_length: len });
    }
    validate_fast::<T>(trimmed)
}

/// Apply the full normalization for a domain: trim, case fold when the
/// domain is case-insensitive, and the domain's own hook.
pub(crate) fn normalize_text<T: KeyDomain>(key: &str) -> (r: String)
    ensures
        r@ == spec_domain_normal::<T>(key@),
{
    let trimmed = trim(key);
    let common = if T::CASE_INSENSITIVE {
        lowercase(trimmed)
    } else {
        trimmed.to_owned()
    };
    T::normalize_domain(common.as_str())
}

/// Rewrite the domain name of a domain validation error to the name of the
/// domain at hand; other errors pass through unchanged.
pub open spec fn spec_fix_domain<T: KeyDomain>(e: ErrorSpec) -> ErrorSpec {
    match e {
        ErrorSpec::DomainValidation { message, .. } => ErrorSpec::DomainValidation {
            domain: T::DOMAIN_NAME@,
            message,
        },
        other => other,
    }
}

fn fix_domain_error<T: KeyDomain>(e: KeyParseError) -> (r: KeyParseError)
    ensures
        r@ == spec_fix_domain::<T>(e@),
{
    match e {
        KeyParseError::DomainValidation { message, .. } => KeyParseError::DomainValidation {
            domain: T::DOMAIN_NAME,
            message,
        },
        other => other,
    }
}

/// The whole construction pipeline for a domain: common validation on the
/// raw text, normalization, the domain's acceptance rule on the normalized
/// text (with the error's domain name rewritten), and a final check that
/// the normalized length fits the cached 32-bit length field.
pub open spec fn spec_construct<T: KeyDomain>(s: Seq<char>) -> Result<Seq<char>, ErrorSpec> {
    match spec_validate_common::<T>(s) {
        Err(e) => Err(e),
        Ok(u) => {
            let n = spec_domain_normal::<T>(s);
            match T::spec_validate(n) {
                Err(e) => Err(spec_fix_domain::<T>(e)),
                Ok(u2) => if n.len() > u32::MAX {
                    Err(ErrorSpec::TooLong {
                        max_length: u32::MAX as int,
                        actual_length: n.len() as int,
                    })
                } else {
                    Ok(n)
                },
            }
        },
    }
}

// ---------------------------------------------------------------------------
// The key value type
// ---------------------------------------------------------------------------

/// An immutable, validated, normalized string identifier of domain `T`.
///
/// The view of a key is the character sequence of its text.  Alongside the
/// text the key caches its scalar length and its hash; an internal type
/// invariant keeps both caches exactly consistent with the text for every
/// live key.
#[verifier::reject_recursive_types(T)]
pub struct Key<T: KeyDomain> {
    inner: KeyStorage,
    hash: u64,
    length: u32,
    marker: PhantomData<T>,
}

impl<T: KeyDomain> View for Key<T> {
    type V = Seq<char>;

    closed spec fn view(&self) -> Seq<char> {
        smart_view(self.inner)
    }
}

impl<T: KeyDomain> Key<T> {
    /// Every live key caches its text's exact scalar length and hash.
    #[verifier::type_invariant]
    spec fn cache_consistent(self) -> bool {
        &&& self.length as nat == smart_view(self.inner).len()
        &&& self.hash == spec_hash(smart_view(self.inner))
    }

    /// The cached hash field, for stating cache facts.
    pub closed spec fn cached_hash(self) -> u64 {
        self.hash
    }

    /// The cached length field, for stating cache facts.
    pub closed spec fn cached_length(self) -> nat {
        self.length as nat
    }

    /// Build a key, running the full validation pipeline.
    pub fn new(key: &str) -> (r: Result<Self, KeyParseError>)
        ensures
            match r {
                Ok(k) => spec_construct::<T>(key@) == Ok::<Seq<char>, ErrorSpec>(k@),
                Err(e) => spec_construct::<T>(key@) == Err::<Seq<char>, ErrorSpec>(e@),
            },
    {
        match validate_common::<T>(key) {
            Err(e) => return Err(e),
            Ok(u) => {},
        }
        let normalized = normalize_text::<T>(key);
        match T::validate_domain_rules(normalized.as_str()) {
            Err(e) => return Err(fix_domain_error::<T>(e)),
            Ok(u) => {},
        }
        let len = normalized.as_str().unicode_len();
        if len > u32::MAX as usize {
            return Err(KeyParseError::TooLong {
                max_length: u32::MAX as usize,
                actual_length: len,
            });
        }
        let hash = compute_hash(normalized.as_str());
        Ok(Key {
            inner: smart_from_str(normalized.as_str()),
            hash,
            length: len as u32,
            marker: PhantomData,
        })
    }

    /// Build a key from an owned string; same pipeline as [`Key::new`].
    pub fn from_string(key: String) -> (r: Result<Self, KeyParseError>)
        ensures
            match r {
                Ok(k) => spec_construct::<T>(key@) == Ok::<Seq<char>, ErrorSpec>(k@),
                Err(e) => spec_construct::<T>(key@) == Err::<Seq<char>, ErrorSpec>(e@),
            },
    {
        Self::new(key.as_str())
    }

    /// Build a key, dropping the error detail on failure.
    pub fn try_new(key: &str) -> (r: Option<Self>)
        ensures
            match r {
                Some(k) => spec_construct::<T>(key@) == Ok::<Seq<char>, ErrorSpec>(k@),
                None => spec_construct::<T>(key@) is Err,
            },
    {
        match Self::new(key) {
            Ok(k) => Some(k),
            Err(e) => None,
        }
    }

    /// The key's text.
    pub fn as_str(&self) -> (r: &str)
        ensures
            r@ == self@,
    {
        smart_as_str(&self.inner)
    }

    /// The name of the key's domain.
    pub fn domain(&self) -> (r: &'static str)
        ensures
            r@ == T::DOMAIN_NAME@,
    {
        T::DOMAIN_NAME
    }

    /// The key's length in scalar values, read from the cache.
    pub fn len(&self) -> (r: usize)
        ensures
            r == self@.len(),
            r == self.cached_length(),
            r <= u32::MAX,
    {
        proof {
            use_type_invariant(self);
        }
        self.length as usize
    }

    /// Whether the key is empty; validated construction never lets an empty
    /// key exist.
    pub fn is_empty(&self) -> (r: bool)
        ensures
            r == (self@.len() == 0),
    {
        proof {
            use_type_invariant(self);
        }
        self.length == 0
    }

    /// The key's hash, read from the cache.
    pub fn hash(&self) -> (r: u64)
        ensures
            r == spec_hash(self@),
            r == self.cached_hash(),
    {
        proof {
            use_type_invariant(self);
        }
        self.hash
    }
}

impl<T: KeyDomain> Key<T> {
    /// Whether the key's text starts with the given prefix.
    pub fn starts_with(&self, prefix: &str) -> (r: bool)
        ensures
            r == spec_starts_with(self@, prefix@),
    {
        starts_with_text(smart_as_str(&self.inner), prefix)
    }

    /// Whether the key's text ends with the given suffix.
    pub fn ends_with(&self, suffix: &str) -> (r: bool)
        ensures
            r == spec_ends_with(self@, suffix@),
    {
        ends_with_text(smart_as_str(&self.inner), suffix)
    }

    /// Whether the key's text contains the given pattern.
    pub fn contains(&self, pattern: &str) -> (r: bool)
        ensures
            r == spec_contains(self@, pattern@),
    {
        contains_text(smart_as_str(&self.inner), pattern)
    }

    /// Iterate over the characters of the key.
    pub fn chars(&self) -> (r: core::str::Chars<'_>)
        ensures
            vstd::std_specs::iter::IteratorSpec::remaining(&r) == self@,
    {
        broadcast use vstd::string::axiom_spec_iter;

        smart_as_str(&self.inner).chars()
    }

    /// Split the key at every occurrence of a delimiter character.  A fresh
    /// call always re-scans from the start; the returned iterator itself is
    /// single-pass.
    pub fn split(&self, delimiter: char) -> (r: SplitIterator)
        ensures
            r@ == spec_split(self@, seq![delimiter]),
    {
        make_split_iterator(smart_as_str(&self.inner), delimiter)
    }

    /// Split the key at a delimiter character; same behaviour as
    /// [`Key::split`], under the name the caching API uses.
    pub fn split_cached(&self, delimiter: char) -> (r: SplitIterator)
        ensures
            r@ == spec_split(self@, seq![delimiter]),
    {
        make_split_iterator(smart_as_str(&self.inner), delimiter)
    }

    /// Split the key at every occurrence of a string delimiter.
    pub fn split_str(&self, delimiter: &str) -> (r: Vec<String>)
        ensures
            r@.len() == spec_split(self@, delimiter@).len(),
            forall|i: int| 0 <= i < r@.len() ==> r@[i]@ == spec_split(self@, delimiter@)[i],
    {
        split_text(smart_as_str(&self.inner), delimiter)
    }
}

// ---------------------------------------------------------------------------
// Derivation: ensure-prefix and ensure-suffix
// ---------------------------------------------------------------------------

/// Position of the first character of `p` at or after `i` that the domain
/// does not allow, or `-1` if the domain allows them all.
pub open spec fn spec_first_bad<T: KeyDomain>(p: Seq<char>, i: int) -> int
    decreases p.len() - i,
{
    if i < 0 || i >= p.len() {
        -1
    } else if !T::spec_allowed(p[i]) {
        i
    } else {
        spec_first_bad::<T>(p, i + 1)
    }
}

/// What ensure-prefix returns: the key unchanged when the prefix is already
/// present; otherwise the combined text, after an early length check, a
/// character check of the added prefix alone, and the domain's acceptance
/// rule on the combined text.
pub open spec fn spec_ensure_prefix<T: KeyDomain>(text: Seq<char>, p: Seq<char>) -> Result<
    Seq<char>,
    ErrorSpec,
> {
    if spec_starts_with(text, p) {
        Ok(text)
    } else if p.len() + text.len() > T::MAX_LENGTH {
        Err(ErrorSpec::TooLong {
            max_length: T::MAX_LENGTH as int,
            actual_length: p.len() + text.len() as int,
        })
    } else {
        let bad = spec_first_bad::<T>(p, 0);
        if bad >= 0 {
            Err(ErrorSpec::InvalidCharacter {
                character: p[bad],
                position: bad,
                expected: Some("allowed by domain"@),
            })
        } else {
            let joined = p + text;
            match T::spec_validate(joined) {
                Err(e) => Err(spec_fix_domain::<T>(e)),
                Ok(u) => if joined.len() > u32::MAX {
                    Err(ErrorSpec::TooLong {
                        max_length: u32::MAX as int,
                        actual_length: joined.len() as int,
                    })
                } else {
                    Ok(joined)
                },
            }
        }
    }
}

/// What ensure-suffix returns; the mirror image of [`spec_ensure_prefix`],
/// with character positions offset by the key's length.
pub open spec fn spec_ensure_suffix<T: KeyDomain>(text: Seq<char>, p: Seq<char>) -> Result<
    Seq<char>,
    ErrorSpec,
> {
    if spec_ends_with(text, p) {
        Ok(text)
    } else if text.len() + p.len() > T::MAX_LENGTH {
        Err(ErrorSpec::TooLong {
            max_length: T::MAX_LENGTH as int,
            actual_length: text.len() + p.len() as int,
        })
    } else {
        let bad = spec_first_bad::<T>(p, 0);
        if bad >= 0 {
            Err(ErrorSpec::InvalidCharacter {
                character: p[bad],
                position: text.len() + bad,
                expected: Some("allowed by domain"@),
            })
        } else {
            let joined = text + p;
            match T::spec_validate(joined) {
                Err(e) => Err(spec_fix_domain::<T>(e)),
                Ok(u) => if joined.len() > u32::MAX {
                    Err(ErrorSpec::TooLong {
                        max_length: u32::MAX as int,
                        actual_length: joined.len() as int,
                    })
                } else {
                    Ok(joined)
                },
            }
        }
    }
}

/// Scan an added segment against the domain's general character rule.
fn scan_segment<T: KeyDomain>(p: &str) -> (r: Option<usize>)
    ensures
        match r {
            Some(k) => k < p@.len() && k as int == spec_first_bad::<T>(p@, 0),
            None => spec_first_bad::<T>(p@, 0) == -1,
        },
{
    let n = p.unicode_len();
    let mut i: usize = 0;
    while i < n
        invariant
            n == p@.len(),
            i <= n,
            spec_first_bad::<T>(p@, 0) == spec_first_bad::<T>(p@, i as int),
        decreases n - i,
    {
        if !T::allowed_characters(p.get_char(i)) {
            return Some(i);
        }
        i = i + 1;
    }
    None
}

impl<T: KeyDomain> Key<T> {
    /// Return a key that starts with the given prefix: the key itself when
    /// it already does, otherwise a new key holding prefix plus text.  Only
    /// the added prefix is re-checked character by character; the domain's
    /// acceptance rule runs on the whole combined text.
    pub fn ensure_prefix(&self, prefix: &str) -> (r: Result<Self, KeyParseError>)
        requires
            self@.len() + prefix@.len() <= usize::MAX,
        ensures
            match r {
                Ok(k) => spec_ensure_prefix::<T>(self@, prefix@)
                    == Ok::<Seq<char>, ErrorSpec>(k@),
                Err(e) => spec_ensure_prefix::<T>(self@, prefix@)
                    == Err::<Seq<char>, ErrorSpec>(e@),
            },
    {
        let s = smart_as_str(&self.inner);
        if starts_with_text(s, prefix) {
            return Ok(self.clone());
        }
        let plen = prefix.unicode_len();
        let slen = self.len();
        let total = plen + slen;
        if total > T::MAX_LENGTH {
            return Err(KeyParseError::TooLong {
                max_length: T::MAX_LENGTH,
                actual_length: total,
            });
        }
        match scan_segment::<T>(prefix) {
            Some(i) => {
                return Err(KeyParseError::InvalidCharacter {
                    character: prefix.get_char(i),
                    position: i,
                    expected: Some("allowed by domain"),
                });
            },
            None => {},
        }
        let mut combined = prefix.to_owned();
        combined.append(s);
        match T::validate_domain_rules(combined.as_str()) {
            Err(e) => return Err(fix_domain_error::<T>(e)),
            Ok(u) => {},
        }
        if total > u32::MAX as usize {
            return Err(KeyParseError::TooLong {
                max_length: u32::MAX as usize,
                actual_length: total,
            });
        }
        let hash = compute_hash(combined.as_str());
        Ok(Key {
            inner: smart_from_str(combined.as_str()),
            hash,
            length: total as u32,
            marker: PhantomData,
        })
    }

    /// Return a key that ends with the given suffix: the key itself when it
    /// already does, otherwise a new key holding text plus suffix.  Only the
    /// added suffix is re-checked character by character; the domain's
    /// acceptance rule runs on the whole combined text.
    pub fn ensure_suffix(&self, suffix: &str) -> (r: Result<Self, KeyParseError>)
        requires
            self@.len() + suffix@.len() <= usize::MAX,
        ensures
            match r {
                Ok(k) => spec_ensure_suffix::<T>(self@, suffix@)
                    == Ok::<Seq<char>, ErrorSpec>(k@),
                Err(e) => spec_ensure_suffix::<T>(self@, suffix@)
                    == Err::<Seq<char>, ErrorSpec>(e@),
            },
    {
        let s = smart_as_str(&self.inner);
        if ends_with_text(s, suffix) {
            return Ok(self.clone());
        }
        let plen = suffix.unicode_len();
        let slen = self.len();
        let total = slen + plen;
        if total > T::MAX_LENGTH {
            return Err(KeyParseError::TooLong {
                max_length: T::MAX_LENGTH,
                actual_length: total,
            });
        }
        match scan_segment::<T>(suffix) {
            Some(i) => {
                return Err(KeyParseError::InvalidCharacter {
                    character: suffix.get_char(i),
                    position: slen + i,
                    expected: Some("allowed by domain"),
                });
            },
            None => {},
        }
        let mut combined = s.to_owned();
        combined.append(suffix);
        match T::validate_domain_rules(combined.as_str()) {
            Err(e) => return Err(fix_domain_error::<T>(e)),
            Ok(u) => {},
        }
        if total > u32::MAX as usize {
            return Err(KeyParseError::TooLong {
                max_length: u32::MAX as usize,
                actual_length: total,
            });
        }
        let hash = compute_hash(combined.as_str());
        Ok(Key {
            inner: smart_from_str(combined.as_str()),
            hash,
            length: total as u32,
            marker: PhantomData,
        })
    }
}

// ---------------------------------------------------------------------------
// Multi-part construction
// ---------------------------------------------------------------------------

/// What from-parts returns: empty part lists and empty parts are rejected
/// up front; otherwise the parts joined with the delimiter run through the
/// whole construction pipeline.
pub open spec fn spec_from_parts<T: KeyDomain>(parts: Seq<Seq<char>>, delimiter: Seq<char>)
    -> Result<Seq<char>, ErrorSpec> {
    if parts.len() == 0 {
        Err(ErrorSpec::Empty)
    } else if exists|i: int| 0 <= i < parts.len() && parts[i].len() == 0 {
        Err(ErrorSpec::InvalidStructure { reason: "Parts cannot contain empty strings"@ })
    } else if spec_join(parts, delimiter).len() == 0 {
        Err(ErrorSpec::Empty)
    } else {
        spec_construct::<T>(spec_join(parts, delimiter))
    }
}

impl<T: KeyDomain> Key<T> {
    /// Build a key by joining parts with a delimiter and running the whole
    /// pipeline on the joined text.
    pub fn from_parts(parts: &[&str], delimiter: &str) -> (r: Result<Self, KeyParseError>)
        ensures
            match r {
                Ok(k) => spec_from_parts::<T>(spec_views(parts@), delimiter@)
                    == Ok::<Seq<char>, ErrorSpec>(k@),
                Err(e) => spec_from_parts::<T>(spec_views(parts@), delimiter@)
                    == Err::<Seq<char>, ErrorSpec>(e@),
            },
    {
        if parts.len() == 0 {
            return Err(KeyParseError::Empty);
        }
        let mut i: usize = 0;
        while i < parts.len()
            invariant
                i <= parts@.len(),
                forall|j: int| 0 <= j < i ==> parts@[j]@.len() != 0,
            decreases parts@.len() - i,
        {
            if parts[i].is_empty() {
                proof {
                    assert(spec_views(parts@)[i as int].len() == 0);
                }
                return Err(KeyParseError::InvalidStructure {
                    reason: "Parts cannot contain empty strings",
                });
            }
            i = i + 1;
        }
        proof {
            assert(forall|j: int| 0 <= j < spec_views(parts@).len()
                ==> #[trigger] spec_views(parts@)[j].len() != 0);
        }
        let joined = join_optimized(parts, delimiter);
        if joined.as_str().is_empty() {
            return Err(KeyParseError::Empty);
        }
        Self::from_string(joined)
    }

    /// Build a key from parts, dropping the error detail on failure.
    pub fn try_from_parts(parts: &[&str], delimiter: &str) -> (r: Option<Self>)
        ensures
            match r {
                Some(k) => spec_from_parts::<T>(spec_views(parts@), delimiter@)
                    == Ok::<Seq<char>, ErrorSpec>(k@),
                None => spec_from_parts::<T>(spec_views(parts@), delimiter@) is Err,
            },
    {
        match Self::from_parts(parts, delimiter) {
            Ok(k) => Some(k),
            Err(e) => None,
        }
    }

    /// Build a key from a trusted static string without validating it.  The
    /// hash and length caches are still computed, so the cache invariant
    /// holds; the caller asserts that the text obeys the domain's rules.
    pub fn from_static_unchecked(key: &'static str) -> (r: Self)
        requires
            key@.len() <= u32::MAX,
        ensures
            r@ == key@,
    {
        let hash = compute_hash(key);
        let length = key.unicode_len();
        Key { inner: smart_from_str(key), hash, length: length as u32, marker: PhantomData }
    }

    /// Validate a static string and, on success, build the key from the
    /// static text as given (without normalization).
    pub fn try_from_static(key: &'static str) -> (r: Result<Self, KeyParseError>)
        requires
            key@.len() <= u32::MAX,
        ensures
            match r {
                Ok(k) => spec_construct::<T>(key@) is Ok && k@ == key@,
                Err(e) => spec_construct::<T>(key@) == Err::<Seq<char>, ErrorSpec>(e@),
            },
    {
        match Self::new(key) {
            Err(e) => Err(e),
            Ok(k) => Ok(Self::from_static_unchecked(key)),
        }
    }

    /// The validation characteristics of this key and its domain.
    pub fn validation_info(&self) -> (r: KeyValidationInfo)
        ensures
            r.domain@ == T::DOMAIN_NAME@,
            r.max_length == T::MAX_LENGTH,
            r.length == self@.len(),
            r.has_custom_validation == T::HAS_CUSTOM_VALIDATION,
            r.has_custom_normalization == T::HAS_CUSTOM_NORMALIZATION,
    {
        KeyValidationInfo {
            domain: T::DOMAIN_NAME,
            max_length: T::MAX_LENGTH,
            length: self.len(),
            has_custom_validation: T::HAS_CUSTOM_VALIDATION,
            has_custom_normalization: T::HAS_CUSTOM_NORMALIZATION,
        }
    }

    /// The key rendered for people: the domain name, a colon, the text.
    pub fn display_string(&self) -> (r: String)
        ensures
            r@ == T::DOMAIN_NAME@ + ":"@ + self@,
    {
        let mut out = T::DOMAIN_NAME.to_owned();
        out.append(":");
        out.append(smart_as_str(&self.inner));
        out
    }
}

// ---------------------------------------------------------------------------
// Standard traits
// ---------------------------------------------------------------------------

impl<T: KeyDomain> Clone for Key<T> {
    /// Copy the text, hash and length; no re-validation, no re-hashing.
    fn clone(&self) -> (r: Self)
        ensures
            r@ == self@,
    {
        proof {
            use_type_invariant(self);
        }
        Key {
            inner: smart_clone(&self.inner),
            hash: self.hash,
            length: self.length,
            marker: PhantomData,
        }
    }
}

impl<T: KeyDomain> PartialEq for Key<T> {
    /// Two keys are equal exactly when their texts are equal.
    fn eq(&self, other: &Self) -> (r: bool) {
        str_eq(smart_as_str(&self.inner), smart_as_str(&other.inner))
    }
}

impl<T: KeyDomain> vstd::std_specs::cmp::PartialEqSpecImpl for Key<T> {
    open spec fn obeys_eq_spec() -> bool {
        true
    }

    open spec fn eq_spec(&self, other: &Self) -> bool {
        self@ == other@
    }
}

impl<T: KeyDomain> Eq for Key<T> {

}

impl<T: KeyDomain> core::hash::Hash for Key<T> {
    /// Relies on `core::hash::Hasher::write_u64`: feeds the cached hash to
    /// the hasher instead of re-hashing the text.
    #[verifier::external_body]
    fn hash<H: core::hash::Hasher>(&self, state: &mut H) {
        state.write_u64(self.hash)
    }
}

impl<T: KeyDomain> From<Key<T>> for String {
    /// Unwrap the key into its text.
    fn from(key: Key<T>) -> (r: String) {
        smart_into_string(key.inner)
    }
}

impl<T: KeyDomain> vstd::std_specs::convert::FromSpecImpl<Key<T>> for String {
    open spec fn obeys_from_spec() -> bool {
        false
    }

    open spec fn from_spec(t: Key<T>) -> String {
        arbitrary()
    }
}

impl<T: KeyDomain> core::str::FromStr for Key<T> {
    type Err = KeyParseError;

    /// Parse a key by running the whole pipeline.
    fn from_str(s: &str) -> Result<Self, KeyParseError> {
        Self::new(s)
    }
}

// ---------------------------------------------------------------------------
// Split iterator
// ---------------------------------------------------------------------------

/// A single-pass iterator over the pieces of a split key.  Its view is the
/// sequence of pieces not yet handed out.
pub struct SplitIterator {
    parts: Vec<String>,
    index: usize,
}

impl View for SplitIterator {
    type V = Seq<Seq<char>>;

    closed spec fn view(&self) -> Seq<Seq<char>> {
        self.parts@.map_values(|s: String| s@).skip(self.index as int)
    }
}

impl SplitIterator {
    #[verifier::type_invariant]
    spec fn in_bounds(self) -> bool {
        self.index <= self.parts@.len()
    }

    /// Hand out the next piece, or `None` when all pieces are consumed.
    pub fn next(&mut self) -> (r: Option<String>)
        ensures
            old(self)@.len() == 0 ==> r is None && final(self)@ == old(self)@,
            old(self)@.len() > 0 ==> (r matches Some(p) && p@ == old(self)@[0]
                && final(self)@ == old(self)@.drop_first()),
    {
        proof {
            use_type_invariant(&*self);
        }
        if self.index < self.parts.len() {
            let p = self.parts[self.index].clone();
            self.index = self.index + 1;
            proof {
                assert(self@ =~= old(self)@.drop_first());
            }
            Some(p)
        } else {
            None
        }
    }

    /// How many pieces are still to come.
    pub fn remaining(&self) -> (r: usize)
        ensures
            r == self@.len(),
    {
        proof {
            use_type_invariant(self);
        }
        self.parts.len() - self.index
    }
}

/// Split a string at every occurrence of a delimiter character, as an
/// iterator over the pieces.
pub(crate) fn make_split_iterator(s: &str, delimiter: char) -> (r: SplitIterator)
    ensures
        r@ == spec_split(s@, seq![delimiter]),
{
    let mut d = String::new();
    push_char(&mut d, delimiter);
    proof {
        assert(d@ =~= seq![delimiter]);
    }
    let parts = split_text(s, d.as_str());
    let it = SplitIterator { parts, index: 0 };
    proof {
        assert(it@ =~~= spec_split(s@, seq![delimiter]));
    }
    it
}

// ---------------------------------------------------------------------------
// Key validation info
// ---------------------------------------------------------------------------

/// How a key was validated: its domain's bounds and custom hooks, and the
/// key's own length.
#[derive(Debug, Clone, PartialEq, Eq)]
pub struct KeyValidationInfo {
    /// Domain name.
    pub domain: &'static str,
    /// Maximum allowed length for the domain.
    pub max_length: usize,
    /// Actual length of the key.
    pub length: usize,
    /// Whether the domain has its own acceptance rule.
    pub has_custom_validation: bool,
    /// Whether the domain has its own normalization.
    pub has_custom_normalization: bool,
}

// ---------------------------------------------------------------------------
// Laws
// ---------------------------------------------------------------------------

/// Hash-equality consistency: the hash a key caches is a function of its
/// text alone, so keys whose texts agree have equal hashes.  [`Key::hash`]
/// returns exactly `spec_hash` of the key's text.
pub proof fn lemma_hash_equality(a: Seq<char>, b: Seq<char>)
    ensures
        a == b ==> spec_hash(a) == spec_hash(b),
{
}

/// Applying ensure-prefix twice is a no-op the second time: a text that
/// ensure-prefix accepted already starts with the prefix, so running it
/// again returns the same text unchanged.
pub proof fn lemma_ensure_prefix_idempotent<T: KeyDomain>(text: Seq<char>, p: Seq<char>, r: Seq<
    char,
>)
    requires
        spec_ensure_prefix::<T>(text, p) == Ok::<Seq<char>, ErrorSpec>(r),
    ensures
        spec_ensure_prefix::<T>(r, p) == Ok::<Seq<char>, ErrorSpec>(r),
{
    if spec_starts_with(text, p) {
    } else {
        let joined = p + text;
        assert(joined.subrange(0, p.len() as int) =~= p);
        assert(spec_starts_with(joined, p));
    }
}

/// Applying ensure-suffix twice is a no-op the second time.
pub proof fn lemma_ensure_suffix_idempotent<T: KeyDomain>(text: Seq<char>, p: Seq<char>, r: Seq<
    char,
>)
    requires
        spec_ensure_suffix::<T>(text, p) == Ok::<Seq<char>, ErrorSpec>(r),
    ensures
        spec_ensure_suffix::<T>(r, p) == Ok::<Seq<char>, ErrorSpec>(r),
{
    if spec_ends_with(text, p) {
    } else {
        let joined = text + p;
        assert(joined.subrange(joined.len() - p.len(), joined.len() as int) =~= p);
        assert(spec_ends_with(joined, p));
    }
}

/// Round-trip equality: feeding a constructed key's text back through the
/// pipeline succeeds and returns the same text (and therefore the same
/// hash).  Two hypotheses restrict it to texts the pipeline can re-accept:
/// the character-and-structure scan must pass on the normalized text — a
/// domain's normalization may produce text its own scan would reject — and
/// its length must lie within the domain's bounds.
pub proof fn lemma_round_trip<T: KeyDomain>(s: Seq<char>, text: Seq<char>)
    requires
        spec_construct::<T>(s) == Ok::<Seq<char>, ErrorSpec>(text),
        spec_scan::<T>(text, 0) == Ok::<(), ErrorSpec>(()),
        T::MIN_LENGTH <= text.len() <= T::MAX_LENGTH,
        text.len() > 0,
    ensures
        spec_construct::<T>(text) == Ok::<Seq<char>, ErrorSpec>(text),
{
    lemma_round_trip_inner::<T>(s, text);
}

/// Round-trip equality without side conditions, for case-sensitive domains
/// whose own normalization hook is the identity: there the constructed text
/// is exactly the trimmed input the scan accepted, so the pipeline always
/// re-accepts it.
pub proof fn lemma_round_trip_case_sensitive<T: KeyDomain>(s: Seq<char>, text: Seq<char>)
    requires
        !T::CASE_INSENSITIVE,
        forall|t: Seq<char>| #[trigger] T::spec_normalize(t) == t,
        spec_construct::<T>(s) == Ok::<Seq<char>, ErrorSpec>(text),
    ensures
        spec_construct::<T>(text) == Ok::<Seq<char>, ErrorSpec>(text),
{
    match spec_validate_common::<T>(s) {
        Err(e) => {
            assert(spec_construct::<T>(s) == Err::<Seq<char>, ErrorSpec>(e));
            assert(false);
        },
        Ok(u) => {},
    }
    assert(spec_validate_common::<T>(s) == Ok::<(), ErrorSpec>(()));
    let t = spec_trim(s);
    assert(t.len() > 0 && T::MIN_LENGTH <= t.len() <= T::MAX_LENGTH);
    assert(spec_scan::<T>(t, 0) == Ok::<(), ErrorSpec>(()));
    assert(text == spec_domain_normal::<T>(s));
    assert(crate::text::spec_common_normal(s, T::CASE_INSENSITIVE) == t);
    assert(text == t);
    lemma_round_trip_inner::<T>(s, text);
}

/// The scan still passes after case folding, provided the domain's rules
/// are closed under lowercasing.
proof fn lemma_scan_lower<T: KeyDomain>(s: Seq<char>, i: int)
    requires
        forall|c: char| #[trigger] T::spec_allowed(c) ==> T::spec_allowed(spec_lower_char(c)),
        forall|c: char| #[trigger] T::spec_allowed_start(c) ==> T::spec_allowed_start(
            spec_lower_char(c),
        ),
        forall|c: char| #[trigger] T::spec_allowed_end(c) ==> T::spec_allowed_end(
            spec_lower_char(c),
        ),
        forall|p: char, c: char| #[trigger] T::spec_allowed_adjacent(p, c)
            ==> T::spec_allowed_adjacent(spec_lower_char(p), spec_lower_char(c)),
        0 <= i <= s.len(),
        spec_scan::<T>(s, i) == Ok::<(), ErrorSpec>(()),
    ensures
        spec_scan::<T>(spec_lower(s), i) == Ok::<(), ErrorSpec>(()),
    decreases s.len() - i,
{
    let m = spec_lower(s);
    assert(m.len() == s.len());
    if i == s.len() {
        if s.len() > 0 {
            crate::chars::lemma_lower_char_classes(s[s.len() - 1]);
        }
    } else {
        crate::chars::lemma_lower_char_classes(s[i]);
        assert(spec_char_ok::<T>(s, i));
        assert(spec_char_ok::<T>(m, i));
        if i >= 1 {
            assert(T::spec_allowed_adjacent(s[i - 1], s[i]));
            assert(T::spec_allowed_adjacent(m[i - 1], m[i]));
        }
        lemma_scan_lower::<T>(s, i + 1);
    }
}

/// Round-trip equality without side conditions, for case-insensitive
/// domains whose own normalization hook is the identity and whose character
/// rules are closed under lowercasing: there the constructed text is the
/// case-folded trimmed input, which the pipeline always re-accepts.
pub proof fn lemma_round_trip_case_insensitive<T: KeyDomain>(s: Seq<char>, text: Seq<char>)
    requires
        T::CASE_INSENSITIVE,
        forall|t: Seq<char>| #[trigger] T::spec_normalize(t) == t,
        forall|c: char| #[trigger] T::spec_allowed(c) ==> T::spec_allowed(spec_lower_char(c)),
        forall|c: char| #[trigger] T::spec_allowed_start(c) ==> T::spec_allowed_start(
            spec_lower_char(c),
        ),
        forall|c: char| #[trigger] T::spec_allowed_end(c) ==> T::spec_allowed_end(
            spec_lower_char(c),
        ),
        forall|p: char, c: char| #[trigger] T::spec_allowed_adjacent(p, c)
            ==> T::spec_allowed_adjacent(spec_lower_char(p), spec_lower_char(c)),
        spec_construct::<T>(s) == Ok::<Seq<char>, ErrorSpec>(text),
    ensures
        spec_construct::<T>(text) == Ok::<Seq<char>, ErrorSpec>(text),
{
    match spec_validate_common::<T>(s) {
        Err(e) => {
            assert(spec_construct::<T>(s) == Err::<Seq<char>, ErrorSpec>(e));
            assert(false);
        },
        Ok(u) => {},
    }
    let t = spec_trim(s);
    assert(spec_scan::<T>(t, 0) == Ok::<(), ErrorSpec>(()));
    assert(text == spec_lower(t));
    lemma_scan_lower::<T>(t, 0);
    assert(spec_scan::<T>(text, 0) == Ok::<(), ErrorSpec>(()));
    lemma_round_trip_inner::<T>(s, text);
}

proof fn lemma_round_trip_inner<T: KeyDomain>(s: Seq<char>, text: Seq<char>)
    requires
        spec_construct::<T>(s) == Ok::<Seq<char>, ErrorSpec>(text),
        spec_scan::<T>(text, 0) == Ok::<(), ErrorSpec>(()),
        T::MIN_LENGTH <= text.len() <= T::MAX_LENGTH,
        text.len() > 0,
    ensures
        spec_construct::<T>(text) == Ok::<Seq<char>, ErrorSpec>(text),
{
    T::normalize_stable(s);
    let ci = T::CASE_INSENSITIVE;
    // The constructed text is stable under the common normalization, so in
    // particular it is its own trim.
    assert(crate::text::spec_common_normal(text, ci) == text);
    if ci {
        crate::text::lemma_trim_shape(text);
        assert(spec_lower(spec_trim(text)).len() == spec_trim(text).len());
        crate::text::lemma_trim_len_eq(text);
    } else {
        crate::text::lemma_trim_len_eq(text);
    }
    assert(spec_trim(text) == text);
    assert(spec_validate_common::<T>(text) == Ok::<(), ErrorSpec>(()));
    // Normalizing the text again returns it unchanged.
    assert(spec_domain_normal::<T>(text) == text);
}

} // verus!
