//! The domain capability contract and the built-in domains.
//!
//! A domain is a zero-sized marker type whose [`KeyDomain`] implementation
//! supplies the policy for one category of keys: its name, length bounds,
//! character rules, normalization hook and acceptance rule.  The policy is
//! stated twice — as specification functions that contracts talk about, and
//! as executable checks proved to agree with them.  An implementation also
//! proves that its normalization hook keeps the full normalization pipeline
//! idempotent.

use vstd::prelude::*;
use crate::chars::is_key_char_fast;
use crate::chars::is_ascii_alphanumeric_fast;
use crate::chars::spec_is_key_char;
use crate::chars::spec_is_ascii_alphanumeric;
use crate::error::{ErrorSpec, KeyParseError};
use crate::key::DEFAULT_MAX_KEY_LENGTH;
use crate::text::{
    bool_text, contains_text, decimal_string, push_char, spec_bool_text, spec_common_normal,
    spec_contains, spec_decimal, spec_lower, spec_trim, lemma_trim_shape, lemma_trim_of_clean,
    lemma_trim_idempotent, lemma_lower_idempotent,
};
use crate::chars::{lemma_lower_char_classes, lemma_lower_char_space, spec_is_space, spec_lower_char};
use crate::text::{starts_with_text, spec_starts_with};

verus! {

/// Policy contract for one domain of keys.
///
/// Constants carry the bounds and the advisory optimization hints.  The
/// `spec_*` functions define the domain's character rules, normalization and
/// acceptance rule mathematically; the executable methods are proved to
/// return exactly what those functions say.
pub trait KeyDomain: Sized {
    /// Human-readable name of the domain, used in error values.
    const DOMAIN_NAME: &'static str;

    /// Largest allowed length of a key, in scalar values.
    const MAX_LENGTH: usize = DEFAULT_MAX_KEY_LENGTH;

    /// Smallest allowed length of a key, in scalar values.
    const MIN_LENGTH: usize = 1;

    /// Whether the domain supplies its own acceptance rule.
    const HAS_CUSTOM_VALIDATION: bool = false;

    /// Whether the domain supplies its own normalization.
    const HAS_CUSTOM_NORMALIZATION: bool = false;

    /// Advisory hint: the typical length of keys in this domain.
    const EXPECTED_LENGTH: usize = 32;

    /// Advisory hint: keys are usually short enough for inline storage.
    const TYPICALLY_SHORT: bool = true;

    /// Advisory hint: keys are often compared or used in hash containers.
    const FREQUENTLY_COMPARED: bool = false;

    /// Advisory hint: keys are often split into components.
    const FREQUENTLY_SPLIT: bool = false;

    /// Whether normalization lowercases ASCII letters.
    const CASE_INSENSITIVE: bool = true;

    /// Which characters the domain allows anywhere in a key.
    open spec fn spec_allowed(c: char) -> bool {
        spec_is_key_char(c)
    }

    /// Which characters may start a key.
    open spec fn spec_allowed_start(c: char) -> bool {
        Self::spec_allowed(c) && c != '_' && c != '-' && c != '.'
    }

    /// Which characters may end a key.
    open spec fn spec_allowed_end(c: char) -> bool {
        Self::spec_allowed(c) && c != '_' && c != '-' && c != '.'
    }

    /// Which pairs of adjacent characters are allowed.
    open spec fn spec_allowed_adjacent(prev: char, curr: char) -> bool {
        !(prev == curr && (prev == '_' || prev == '-' || prev == '.'))
    }

    /// The domain's own normalization, applied after the common trim and
    /// case fold.
    open spec fn spec_normalize(s: Seq<char>) -> Seq<char> {
        s
    }

    /// The domain's acceptance rule, applied to fully normalized text.
    open spec fn spec_validate(s: Seq<char>) -> Result<(), ErrorSpec> {
        Ok(())
    }

    /// The separator the domain prefers when composing keys.
    open spec fn spec_separator() -> char {
        '_'
    }

    /// Help text shown to users of the domain, if any.
    open spec fn spec_help() -> Option<Seq<char>> {
        None
    }

    /// Example valid keys for the domain.
    open spec fn spec_examples() -> Seq<Seq<char>> {
        Seq::empty()
    }

    /// Check whether a character is allowed anywhere in a key.
    fn allowed_characters(c: char) -> (r: bool)
        ensures
            r == Self::spec_allowed(c),
    ;

    /// Check whether a character may start a key.
    fn allowed_start_character(c: char) -> (r: bool)
        ensures
            r == Self::spec_allowed_start(c),
    ;

    /// Check whether a character may end a key.
    fn allowed_end_character(c: char) -> (r: bool)
        ensures
            r == Self::spec_allowed_end(c),
    ;

    /// Check whether two adjacent characters are allowed.
    fn allowed_consecutive_characters(prev: char, curr: char) -> (r: bool)
        ensures
            r == Self::spec_allowed_adjacent(prev, curr),
    ;

    /// Apply the domain's own normalization.
    fn normalize_domain(key: &str) -> (r: String)
        ensures
            r@ == Self::spec_normalize(key@),
    ;

    /// Apply the domain's acceptance rule.
    fn validate_domain_rules(key: &str) -> (r: Result<(), KeyParseError>)
        ensures
            match r {
                Ok(u) => Self::spec_validate(key@) == Ok::<(), ErrorSpec>(()),
                Err(e) => Self::spec_validate(key@) == Err::<(), ErrorSpec>(e@),
            },
    ;

    /// The separator the domain prefers when composing keys.
    fn default_separator() -> (r: char)
        ensures
            r == Self::spec_separator(),
    ;

    /// Help text for validation errors, if the domain offers any.
    fn validation_help() -> (r: Option<&'static str>)
        ensures
            match r {
                Some(t) => Self::spec_help() matches Some(h) && t@ == h,
                None => Self::spec_help() is None,
            },
    ;

    /// Example valid keys for the domain.
    fn examples() -> (r: Vec<&'static str>)
        ensures
            r@.len() == Self::spec_examples().len(),
            forall|i: int| 0 <= i < r@.len() ==> r@[i]@ == Self::spec_examples()[i],
    ;

    /// Smallest allowed length, as a value.
    fn min_length() -> (r: usize)
        ensures
            r == Self::MIN_LENGTH,
    {
        Self::MIN_LENGTH
    }

    /// Whether the key uses a prefix the domain reserves.  Advisory; the
    /// pipeline does not consult it.
    fn is_reserved_prefix(key: &str) -> bool {
        false
    }

    /// Whether the key uses a suffix the domain reserves.  Advisory; the
    /// pipeline does not consult it.
    fn is_reserved_suffix(key: &str) -> bool {
        false
    }

    /// Whether the domain insists on ASCII-only keys.  Advisory; the
    /// pipeline does not consult it.
    fn requires_ascii_only(key: &str) -> bool {
        false
    }

    /// The domain's normalization keeps the full pipeline idempotent: on
    /// text that has already passed the common trim and case fold, its
    /// output is stable under a second trim and case fold and under a second
    /// application of itself.
    proof fn normalize_stable(s: Seq<char>)
        ensures
            spec_common_normal(
                Self::spec_normalize(spec_common_normal(s, Self::CASE_INSENSITIVE)),
                Self::CASE_INSENSITIVE,
            ) == Self::spec_normalize(spec_common_normal(s, Self::CASE_INSENSITIVE)),
            Self::spec_normalize(
                Self::spec_normalize(spec_common_normal(s, Self::CASE_INSENSITIVE)),
            ) == Self::spec_normalize(spec_common_normal(s, Self::CASE_INSENSITIVE)),
    ;
}

/// The full normalization a domain applies to raw input: trim, case fold if
/// the domain is case-insensitive, and the domain's own hook.
pub open spec fn spec_domain_normal<T: KeyDomain>(s: Seq<char>) -> Seq<char> {
    T::spec_normalize(spec_common_normal(s, T::CASE_INSENSITIVE))
}

/// The common normalization is idempotent: trimming and case folding a
/// second time changes nothing.
pub proof fn lemma_common_normal_idempotent(s: Seq<char>, ci: bool)
    ensures
        spec_common_normal(spec_common_normal(s, ci), ci) == spec_common_normal(s, ci),
{
    if ci {
        let t = spec_trim(s);
        lemma_trim_shape(s);
        let lt = spec_lower(t);
        if lt.len() > 0 {
            lemma_lower_char_space(t[0]);
            lemma_lower_char_space(t[t.len() - 1]);
        }
        lemma_trim_of_clean(lt);
        lemma_lower_idempotent(t);
    } else {
        lemma_trim_idempotent(s);
    }
}

/// Normalization is idempotent for every domain: normalizing already
/// normalized text returns it unchanged.
pub proof fn lemma_normalize_idempotent<T: KeyDomain>(s: Seq<char>)
    ensures
        spec_domain_normal::<T>(spec_domain_normal::<T>(s)) == spec_domain_normal::<T>(s),
{
    T::normalize_stable(s);
}

/// A character-substitution normalization keeps the pipeline idempotent for
/// a case-insensitive domain, provided the substitution is idempotent,
/// never produces whitespace from non-whitespace, and keeps lowercase
/// characters lowercase.
pub proof fn lemma_charmap_normalize_stable(s: Seq<char>, f: spec_fn(char) -> char)
    requires
        forall|c: char| #[trigger] f(f(c)) == f(c),
        forall|c: char| !spec_is_space(c) ==> !spec_is_space(#[trigger] f(c)),
        forall|c: char| spec_lower_char(c) == c ==> spec_lower_char(#[trigger] f(c)) == f(c),
    ensures
        spec_common_normal(spec_common_normal(s, true).map_values(f), true)
            == spec_common_normal(s, true).map_values(f),
        spec_common_normal(s, true).map_values(f).map_values(f)
            == spec_common_normal(s, true).map_values(f),
{
    let t = spec_common_normal(s, true);
    let m = t.map_values(f);
    lemma_trim_shape(s);
    // The trimmed text is clean at both ends; lowercasing keeps it so.
    if t.len() > 0 {
        lemma_lower_char_space(spec_trim(s)[0]);
        lemma_lower_char_space(spec_trim(s)[t.len() - 1]);
    }
    // Every character of t is lowercase-stable.
    lemma_lower_idempotent(spec_trim(s));
    assert(spec_lower(t) == t);
    // m is clean at both ends, so trimming leaves it unchanged.
    assert(m.len() == t.len());
    if m.len() > 0 {
        assert(!spec_is_space(t[0]) && !spec_is_space(t[t.len() - 1]));
        assert(m[0] == f(t[0]) && m[m.len() - 1] == f(t[t.len() - 1]));
        assert(!spec_is_space(m[0]) && !spec_is_space(m[m.len() - 1]));
    }
    lemma_trim_of_clean(m);
    // m is lowercase-stable.
    assert forall|i: int| 0 <= i < m.len() implies spec_lower(m)[i] == m[i] by {
        assert(spec_lower(t)[i] == t[i]);
    }
    assert(spec_lower(m) =~= m);
    assert(spec_common_normal(m, true) == m);
    // Substituting twice is substituting once.
    assert forall|i: int| 0 <= i < m.len() implies m.map_values(f)[i] == m[i] by {}
    assert(m.map_values(f) =~= m);
}

// ---------------------------------------------------------------------------
// Domain introspection
// ---------------------------------------------------------------------------

/// A snapshot of a domain's configuration, for introspection and debugging.
#[derive(Debug, Clone, PartialEq, Eq)]
pub struct DomainInfo {
    /// Domain name.
    pub name: &'static str,
    /// Maximum allowed length.
    pub max_length: usize,
    /// Minimum allowed length.
    pub min_length: usize,
    /// Expected average length.
    pub expected_length: usize,
    /// Whether keys are typically short.
    pub typically_short: bool,
    /// Whether keys are frequently compared.
    pub frequently_compared: bool,
    /// Whether keys are frequently split.
    pub frequently_split: bool,
    /// Whether the domain is case-insensitive.
    pub case_insensitive: bool,
    /// Whether the domain has its own acceptance rule.
    pub has_custom_validation: bool,
    /// Whether the domain has its own normalization.
    pub has_custom_normalization: bool,
    /// The domain's preferred separator.
    pub default_separator: char,
    /// Help text for validation errors, if any.
    pub validation_help: Option<&'static str>,
    /// Example valid keys.
    pub examples: Vec<&'static str>,
}

/// The quoted, comma-separated, bracketed rendering of a list of strings.
pub open spec fn spec_quoted_list(items: Seq<Seq<char>>) -> Seq<char> {
    "["@ + crate::text::spec_join(items.map_values(|e: Seq<char>| "\""@ + e + "\""@), ", "@)
        + "]"@
}

/// The multi-line rendering of a [`DomainInfo`].
pub open spec fn spec_domain_info_display(info: DomainInfo) -> Seq<char> {
    let base = "Domain: "@ + info.name@ + "\n"@ + "Length: "@
        + spec_decimal(info.min_length as int) + "-"@ + spec_decimal(info.max_length as int)
        + " (expected: "@ + spec_decimal(info.expected_length as int) + ")\n"@
        + "Optimization hints:\n"@ + "  \u{2022} Typically short: "@
        + spec_bool_text(info.typically_short) + "\n"@ + "  \u{2022} Frequently compared: "@
        + spec_bool_text(info.frequently_compared) + "\n"@ + "  \u{2022} Frequently split: "@
        + spec_bool_text(info.frequently_split) + "\n"@ + "  \u{2022} Case insensitive: "@
        + spec_bool_text(info.case_insensitive) + "\n"@ + "Custom features:\n"@
        + "  \u{2022} Custom validation: "@ + spec_bool_text(info.has_custom_validation)
        + "\n"@ + "  \u{2022} Custom normalization: "@
        + spec_bool_text(info.has_custom_normalization) + "\n"@ + "Default separator: '"@
        + seq![info.default_separator] + "'\n"@;
    let with_help = match info.validation_help {
        Some(h) => base + "Validation help: "@ + h@ + "\n"@,
        None => base,
    };
    if info.examples@.len() > 0 {
        with_help + "Examples: "@
            + spec_quoted_list(info.examples@.map_values(|e: &'static str| e@)) + "\n"@
    } else {
        with_help
    }
}

impl DomainInfo {
    /// Render the domain's configuration over several lines.
    #[verifier::rlimit(100)]
    #[verifier::spinoff_prover]
    pub fn display_string(&self) -> (r: String)
        ensures
            r@ == spec_domain_info_display(*self),
    {
        let mut out = "Domain: ".to_owned();
        out.append(self.name);
        out.append("\n");
        out.append("Length: ");
        let minimum = decimal_string(self.min_length as u64);
        out.append(minimum.as_str());
        out.append("-");
        let maximum = decimal_string(self.max_length as u64);
        out.append(maximum.as_str());
        out.append(" (expected: ");
        let expected = decimal_string(self.expected_length as u64);
        out.append(expected.as_str());
        out.append(")\n");
        out.append("Optimization hints:\n");
        out.append("  \u{2022} Typically short: ");
        out.append(bool_text(self.typically_short));
        out.append("\n");
        out.append("  \u{2022} Frequently compared: ");
        out.append(bool_text(self.frequently_compared));
        out.append("\n");
        out.append("  \u{2022} Frequently split: ");
        out.append(bool_text(self.frequently_split));
        out.append("\n");
        out.append("  \u{2022} Case insensitive: ");
        out.append(bool_text(self.case_insensitive));
        out.append("\n");
        out.append("Custom features:\n");
        out.append("  \u{2022} Custom validation: ");
        out.append(bool_text(self.has_custom_validation));
        out.append("\n");
        out.append("  \u{2022} Custom normalization: ");
        out.append(bool_text(self.has_custom_normalization));
        out.append("\n");
        out.append("Default separator: '");
        push_char(&mut out, self.default_separator);
        out.append("'\n");
        match self.validation_help {
            Some(h) => {
                out.append("Validation help: ");
                out.append(h);
                out.append("\n");
            },
            None => {},
        }
        if self.examples.len() > 0 {
            out.append("Examples: ");
            let list = quoted_list(&self.examples);
            out.append(list.as_str());
            out.append("\n");
        }
        out
    }
}

/// Render a list of strings the way debug output shows it: quoted,
/// comma-separated, in brackets.
fn quoted_list(items: &Vec<&'static str>) -> (r: String)
    ensures
        r@ == spec_quoted_list(items@.map_values(|e: &'static str| e@)),
{
    let ghost gq = items@.map_values(|e: &'static str| e@).map_values(
        |e: Seq<char>| "\""@ + e + "\""@,
    );
    let mut out = "[".to_owned();
    let mut i: usize = 0;
    while i < items.len()
        invariant
            gq == items@.map_values(|e: &'static str| e@).map_values(
                |e: Seq<char>| "\""@ + e + "\""@,
            ),
            i <= items@.len(),
            i == 0 ==> out@ == "["@,
            i > 0 ==> out@ == "["@ + crate::text::spec_join(gq.take(i as int), ", "@),
        decreases items@.len() - i,
    {
        if i > 0 {
            out.append(", ");
            proof {
                crate::text::lemma_join_step(gq, ", "@, i as int);
            }
        } else {
            proof {
                assert(gq.take(1) =~= seq![gq[0]]);
            }
        }
        out.append("\"");
        out.append(items[i]);
        out.append("\"");
        i = i + 1;
    }
    out.append("]");
    proof {
        if items@.len() > 0 {
            assert(gq.take(gq.len() as int) =~= gq);
        } else {
            assert(gq =~= Seq::<Seq<char>>::empty());
        }
        assert(out@ =~= spec_quoted_list(items@.map_values(|e: &'static str| e@)));
    }
    out
}

/// Collect a domain's configuration into a [`DomainInfo`].
pub fn domain_info<T: KeyDomain>() -> (r: DomainInfo)
    ensures
        r.name@ == T::DOMAIN_NAME@,
        r.max_length == T::MAX_LENGTH,
        r.min_length == T::MIN_LENGTH,
        r.expected_length == T::EXPECTED_LENGTH,
        r.typically_short == T::TYPICALLY_SHORT,
        r.frequently_compared == T::FREQUENTLY_COMPARED,
        r.frequently_split == T::FREQUENTLY_SPLIT,
        r.case_insensitive == T::CASE_INSENSITIVE,
        r.has_custom_validation == T::HAS_CUSTOM_VALIDATION,
        r.has_custom_normalization == T::HAS_CUSTOM_NORMALIZATION,
        r.default_separator == T::spec_separator(),
        match r.validation_help {
            Some(t) => T::spec_help() matches Some(h) && t@ == h,
            None => T::spec_help() is None,
        },
        r.examples@.len() == T::spec_examples().len(),
        forall|i: int| 0 <= i < r.examples@.len()
            ==> r.examples@[i]@ == T::spec_examples()[i],
{
    DomainInfo {
        name: T::DOMAIN_NAME,
        max_length: T::MAX_LENGTH,
        min_length: T::min_length(),
        expected_length: T::EXPECTED_LENGTH,
        typically_short: T::TYPICALLY_SHORT,
        frequently_compared: T::FREQUENTLY_COMPARED,
        frequently_split: T::FREQUENTLY_SPLIT,
        case_insensitive: T::CASE_INSENSITIVE,
        has_custom_validation: T::HAS_CUSTOM_VALIDATION,
        has_custom_normalization: T::HAS_CUSTOM_NORMALIZATION,
        default_separator: T::default_separator(),
        validation_help: T::validation_help(),
        examples: T::examples(),
    }
}

/// Whether two domains agree on the characteristics that make their keys
/// interchangeable in composition helpers.
pub fn domains_compatible<T1: KeyDomain, T2: KeyDomain>() -> (r: bool)
    ensures
        r == (T1::MAX_LENGTH == T2::MAX_LENGTH
            && T1::CASE_INSENSITIVE == T2::CASE_INSENSITIVE
            && T1::spec_separator() == T2::spec_separator()),
{
    T1::MAX_LENGTH == T2::MAX_LENGTH && T1::CASE_INSENSITIVE == T2::CASE_INSENSITIVE
        && T1::default_separator() == T2::default_separator()
}

// ---------------------------------------------------------------------------
// Built-in domains
// ---------------------------------------------------------------------------

/// General-purpose domain: alphanumerics plus `_`, `-` and `.`,
/// case-insensitive, at most 64 characters.
#[derive(Debug, Clone, PartialEq, Eq, Hash, PartialOrd, Ord)]
pub struct DefaultDomain;

impl KeyDomain for DefaultDomain {
    const DOMAIN_NAME: &'static str = "default";

    const MAX_LENGTH: usize = 64;

    const EXPECTED_LENGTH: usize = 24;

    const TYPICALLY_SHORT: bool = true;

    const CASE_INSENSITIVE: bool = true;

    open spec fn spec_help() -> Option<Seq<char>> {
        Some("Use alphanumeric characters, underscores, hyphens, and dots. Case insensitive."@)
    }

    open spec fn spec_examples() -> Seq<Seq<char>> {
        seq!["user_123"@, "session-abc"@, "cache.key"@, "simple"@]
    }

    fn allowed_characters(c: char) -> (r: bool) {
        is_key_char_fast(c)
    }

    fn allowed_start_character(c: char) -> (r: bool) {
        Self::allowed_characters(c) && c != '_' && c != '-' && c != '.'
    }

    fn allowed_end_character(c: char) -> (r: bool) {
        Self::allowed_characters(c) && c != '_' && c != '-' && c != '.'
    }

    fn allowed_consecutive_characters(prev: char, curr: char) -> (r: bool) {
        !(prev == curr && (prev == '_' || prev == '-' || prev == '.'))
    }

    fn normalize_domain(key: &str) -> (r: String) {
        key.to_owned()
    }

    fn validate_domain_rules(key: &str) -> (r: Result<(), KeyParseError>) {
        Ok(())
    }

    fn default_separator() -> (r: char) {
        '_'
    }

    fn validation_help() -> (r: Option<&'static str>) {
        Some("Use alphanumeric characters, underscores, hyphens, and dots. Case insensitive.")
    }

    fn examples() -> (r: Vec<&'static str>) {
        let mut v: Vec<&'static str> = Vec::new();
        v.push("user_123");
        v.push("session-abc");
        v.push("cache.key");
        v.push("simple");
        v
    }

    proof fn normalize_stable(s: Seq<char>) {
        lemma_common_normal_idempotent(s, Self::CASE_INSENSITIVE);
    }
}

/// Strict identifier domain: letters, digits and underscores, starting with
/// a letter or underscore, case-sensitive.
#[derive(Debug, Clone, PartialEq, Eq, Hash, PartialOrd, Ord)]
pub struct IdentifierDomain;

impl KeyDomain for IdentifierDomain {
    const DOMAIN_NAME: &'static str = "identifier";

    const MAX_LENGTH: usize = 64;

    const EXPECTED_LENGTH: usize = 20;

    const CASE_INSENSITIVE: bool = false;

    const HAS_CUSTOM_VALIDATION: bool = true;

    open spec fn spec_allowed(c: char) -> bool {
        spec_is_ascii_alphanumeric(c) || c == '_'
    }

    open spec fn spec_allowed_start(c: char) -> bool {
        ('a' <= c && c <= 'z') || ('A' <= c && c <= 'Z') || c == '_'
    }

    open spec fn spec_validate(s: Seq<char>) -> Result<(), ErrorSpec> {
        if s.len() > 0 && !Self::spec_allowed_start(s[0]) {
            Err(ErrorSpec::DomainValidation {
                domain: "identifier"@,
                message: "Identifier must start with a letter or underscore"@,
            })
        } else {
            Ok(())
        }
    }

    open spec fn spec_help() -> Option<Seq<char>> {
        Some(
            "Must start with letter or underscore, contain only letters, numbers, and underscores. Case sensitive."@,
        )
    }

    open spec fn spec_examples() -> Seq<Seq<char>> {
        seq!["user_id"@, "session_key"@, "_private"@, "publicVar"@]
    }

    fn allowed_characters(c: char) -> (r: bool) {
        is_ascii_alphanumeric_fast(c) || c == '_'
    }

    fn allowed_start_character(c: char) -> (r: bool) {
        ('a' <= c && c <= 'z') || ('A' <= c && c <= 'Z') || c == '_'
    }

    fn allowed_end_character(c: char) -> (r: bool) {
        Self::allowed_characters(c) && c != '_' && c != '-' && c != '.'
    }

    fn allowed_consecutive_characters(prev: char, curr: char) -> (r: bool) {
        !(prev == curr && (prev == '_' || prev == '-' || prev == '.'))
    }

    fn normalize_domain(key: &str) -> (r: String) {
        key.to_owned()
    }

    fn validate_domain_rules(key: &str) -> (r: Result<(), KeyParseError>) {
        if key.unicode_len() > 0 {
            let first = key.get_char(0);
            if !Self::allowed_start_character(first) {
                return Err(KeyParseError::domain_error(
                    Self::DOMAIN_NAME,
                    "Identifier must start with a letter or underscore",
                ));
            }
        }
        Ok(())
    }

    fn default_separator() -> (r: char) {
        '_'
    }

    fn validation_help() -> (r: Option<&'static str>) {
        Some(
            "Must start with letter or underscore, contain only letters, numbers, and underscores. Case sensitive.",
        )
    }

    fn examples() -> (r: Vec<&'static str>) {
        let mut v: Vec<&'static str> = Vec::new();
        v.push("user_id");
        v.push("session_key");
        v.push("_private");
        v.push("publicVar");
        v
    }

    proof fn normalize_stable(s: Seq<char>) {
        lemma_common_normal_idempotent(s, Self::CASE_INSENSITIVE);
    }
}

/// Hierarchical, path-like domain: adds `/` to the default alphabet, forbids
/// leading, trailing and doubled slashes.
#[derive(Debug, Clone, PartialEq, Eq, Hash, PartialOrd, Ord)]
pub struct PathDomain;

impl KeyDomain for PathDomain {
    const DOMAIN_NAME: &'static str = "path";

    const MAX_LENGTH: usize = 256;

    const EXPECTED_LENGTH: usize = 48;

    const TYPICALLY_SHORT: bool = false;

    const FREQUENTLY_SPLIT: bool = true;

    const HAS_CUSTOM_VALIDATION: bool = true;

    open spec fn spec_allowed(c: char) -> bool {
        spec_is_key_char(c) || c == '/'
    }

    open spec fn spec_allowed_start(c: char) -> bool {
        Self::spec_allowed(c) && c != '/'
    }

    open spec fn spec_allowed_end(c: char) -> bool {
        Self::spec_allowed(c) && c != '/'
    }

    open spec fn spec_allowed_adjacent(prev: char, curr: char) -> bool {
        !(prev == '/' && curr == '/')
    }

    open spec fn spec_validate(s: Seq<char>) -> Result<(), ErrorSpec> {
        if s.len() > 0 && (s[0] == '/' || s[s.len() - 1] == '/') {
            Err(ErrorSpec::DomainValidation {
                domain: "path"@,
                message: "Path cannot start or end with '/'"@,
            })
        } else if spec_contains(s, "//"@) {
            Err(ErrorSpec::DomainValidation {
                domain: "path"@,
                message: "Path cannot contain consecutive '/'"@,
            })
        } else {
            Ok(())
        }
    }

    open spec fn spec_separator() -> char {
        '/'
    }

    open spec fn spec_help() -> Option<Seq<char>> {
        Some(
            "Use path-like format with '/' separators. Cannot start/end with '/' or have consecutive '//'."@,
        )
    }

    open spec fn spec_examples() -> Seq<Seq<char>> {
        seq!["users/profile"@, "cache/session/data"@, "config/app.settings"@]
    }

    fn allowed_characters(c: char) -> (r: bool) {
        is_key_char_fast(c) || c == '/'
    }

    fn allowed_start_character(c: char) -> (r: bool) {
        Self::allowed_characters(c) && c != '/'
    }

    fn allowed_end_character(c: char) -> (r: bool) {
        Self::allowed_characters(c) && c != '/'
    }

    fn allowed_consecutive_characters(prev: char, curr: char) -> (r: bool) {
        !(prev == '/' && curr == '/')
    }

    fn normalize_domain(key: &str) -> (r: String) {
        key.to_owned()
    }

    fn validate_domain_rules(key: &str) -> (r: Result<(), KeyParseError>) {
        let n = key.unicode_len();
        if n > 0 && (key.get_char(0) == '/' || key.get_char(n - 1) == '/') {
            return Err(KeyParseError::domain_error(
                Self::DOMAIN_NAME,
                "Path cannot start or end with '/'",
            ));
        }
        if contains_text(key, "//") {
            return Err(KeyParseError::domain_error(
                Self::DOMAIN_NAME,
                "Path cannot contain consecutive '/'",
            ));
        }
        Ok(())
    }

    fn default_separator() -> (r: char) {
        '/'
    }

    fn validation_help() -> (r: Option<&'static str>) {
        Some(
            "Use path-like format with '/' separators. Cannot start/end with '/' or have consecutive '//'.",
        )
    }

    fn examples() -> (r: Vec<&'static str>) {
        let mut v: Vec<&'static str> = Vec::new();
        v.push("users/profile");
        v.push("cache/session/data");
        v.push("config/app.settings");
        v
    }

    proof fn normalize_stable(s: Seq<char>) {
        lemma_common_normal_idempotent(s, Self::CASE_INSENSITIVE);
    }
}

/// Round-trip equality for the default domain, with no side conditions: any
/// key it constructs reconstructs to itself.
pub proof fn lemma_round_trip_default(s: Seq<char>, text: Seq<char>)
    requires
        crate::key::spec_construct::<DefaultDomain>(s) == Ok::<Seq<char>, ErrorSpec>(text),
    ensures
        crate::key::spec_construct::<DefaultDomain>(text) == Ok::<Seq<char>, ErrorSpec>(
            text,
        ),
{
    assert forall|c: char| #[trigger] spec_is_key_char(c) implies spec_is_key_char(
        spec_lower_char(c),
    ) by {
        lemma_lower_char_classes(c);
    }
    assert forall|c: char|
        DefaultDomain::spec_allowed_start(c)
            implies #[trigger] DefaultDomain::spec_allowed_start(
            spec_lower_char(c),
        ) by {
        lemma_lower_char_classes(c);
    }
    assert forall|c: char|
        DefaultDomain::spec_allowed_end(c)
            implies #[trigger] DefaultDomain::spec_allowed_end(
            spec_lower_char(c),
        ) by {
        lemma_lower_char_classes(c);
    }
    assert forall|p: char, c: char|
        #[trigger] DefaultDomain::spec_allowed_adjacent(p, c)
            implies DefaultDomain::spec_allowed_adjacent(
            spec_lower_char(p),
            spec_lower_char(c),
        ) by {
        lemma_lower_char_classes(p);
        lemma_lower_char_classes(c);
    }
    assert(DefaultDomain::CASE_INSENSITIVE);
    crate::key::lemma_round_trip_case_insensitive::<DefaultDomain>(s, text);
}

/// Exercises every custom hook at once: keys of at most 32 characters from
/// letters, digits, `_` and `-`; hyphens are normalized to underscores, and
/// keys starting with `invalid_` are rejected by the acceptance rule.
#[derive(Debug, Clone, PartialEq, Eq, Hash, PartialOrd, Ord)]
pub struct SampleDomain;

/// The substitution [`SampleDomain`] applies: hyphens become underscores.
pub open spec fn spec_dash_to_underscore(c: char) -> char {
    if c == '-' {
        '_'
    } else {
        c
    }
}

impl KeyDomain for SampleDomain {
    const DOMAIN_NAME: &'static str = "test";

    const MAX_LENGTH: usize = 32;

    const HAS_CUSTOM_VALIDATION: bool = true;

    const HAS_CUSTOM_NORMALIZATION: bool = true;

    open spec fn spec_allowed(c: char) -> bool {
        spec_is_ascii_alphanumeric(c) || c == '_' || c == '-'
    }

    open spec fn spec_normalize(s: Seq<char>) -> Seq<char> {
        s.map_values(|c: char| spec_dash_to_underscore(c))
    }

    open spec fn spec_validate(s: Seq<char>) -> Result<(), ErrorSpec> {
        if spec_starts_with(s, "invalid_"@) {
            Err(ErrorSpec::DomainValidation {
                domain: "test"@,
                message: "Keys cannot start with 'invalid_'"@,
            })
        } else {
            Ok(())
        }
    }

    open spec fn spec_help() -> Option<Seq<char>> {
        Some(
            "Use alphanumeric characters, underscores, and hyphens. Cannot start with 'invalid_'."@,
        )
    }

    fn allowed_characters(c: char) -> (r: bool) {
        is_ascii_alphanumeric_fast(c) || c == '_' || c == '-'
    }

    fn allowed_start_character(c: char) -> (r: bool) {
        Self::allowed_characters(c) && c != '_' && c != '-' && c != '.'
    }

    fn allowed_end_character(c: char) -> (r: bool) {
        Self::allowed_characters(c) && c != '_' && c != '-' && c != '.'
    }

    fn allowed_consecutive_characters(prev: char, curr: char) -> (r: bool) {
        !(prev == curr && (prev == '_' || prev == '-' || prev == '.'))
    }

    fn normalize_domain(key: &str) -> (r: String) {
        let n = key.unicode_len();
        let mut out: Vec<char> = Vec::new();
        let mut i: usize = 0;
        while i < n
            invariant
                n == key@.len(),
                i <= n,
                out@ == Self::spec_normalize(key@).take(i as int),
            decreases n - i,
        {
            let c = key.get_char(i);
            let mapped = if c == '-' {
                '_'
            } else {
                c
            };
            out.push(mapped);
            proof {
                assert(out@ =~= Self::spec_normalize(key@).take((i + 1) as int));
            }
            i = i + 1;
        }
        proof {
            assert(Self::spec_normalize(key@).take(n as int) =~= Self::spec_normalize(key@));
        }
        crate::text::chars_to_string(&out)
    }

    fn validate_domain_rules(key: &str) -> (r: Result<(), KeyParseError>) {
        if starts_with_text(key, "invalid_") {
            return Err(KeyParseError::domain_error(
                Self::DOMAIN_NAME,
                "Keys cannot start with 'invalid_'",
            ));
        }
        Ok(())
    }

    fn default_separator() -> (r: char) {
        '_'
    }

    fn validation_help() -> (r: Option<&'static str>) {
        Some(
            "Use alphanumeric characters, underscores, and hyphens. Cannot start with 'invalid_'.",
        )
    }

    fn examples() -> (r: Vec<&'static str>) {
        Vec::new()
    }

    proof fn normalize_stable(s: Seq<char>) {
        let f = |c: char| spec_dash_to_underscore(c);
        lemma_charmap_normalize_stable(s, f);
        let t = spec_common_normal(s, true);
        assert(Self::spec_normalize(t) =~= t.map_values(f));
        assert(Self::spec_normalize(t.map_values(f)) =~= t.map_values(f).map_values(f));
    }
}

/// A plain demonstration domain with default rules, a 32-character bound,
/// help text and examples.
#[derive(Debug, Clone, PartialEq, Eq, Hash, PartialOrd, Ord)]
pub struct ExampleDomain;

impl KeyDomain for ExampleDomain {
    const DOMAIN_NAME: &'static str = "test";

    const MAX_LENGTH: usize = 32;

    open spec fn spec_help() -> Option<Seq<char>> {
        Some("Test domain help"@)
    }

    open spec fn spec_examples() -> Seq<Seq<char>> {
        seq!["example1"@, "example2"@]
    }

    fn allowed_characters(c: char) -> (r: bool) {
        is_key_char_fast(c)
    }

    fn allowed_start_character(c: char) -> (r: bool) {
        Self::allowed_characters(c) && c != '_' && c != '-' && c != '.'
    }

    fn allowed_end_character(c: char) -> (r: bool) {
        Self::allowed_characters(c) && c != '_' && c != '-' && c != '.'
    }

    fn allowed_consecutive_characters(prev: char, curr: char) -> (r: bool) {
        !(prev == curr && (prev == '_' || prev == '-' || prev == '.'))
    }

    fn normalize_domain(key: &str) -> (r: String) {
        key.to_owned()
    }

    fn validate_domain_rules(key: &str) -> (r: Result<(), KeyParseError>) {
        Ok(())
    }

    fn default_separator() -> (r: char) {
        '_'
    }

    fn validation_help() -> (r: Option<&'static str>) {
        Some("Test domain help")
    }

    fn examples() -> (r: Vec<&'static str>) {
        let mut v: Vec<&'static str> = Vec::new();
        v.push("example1");
        v.push("example2");
        v
    }

    proof fn normalize_stable(s: Seq<char>) {
        lemma_common_normal_idempotent(s, Self::CASE_INSENSITIVE);
    }
}

/// Slug-style domain: also accepts spaces and hyphens on input and
/// normalizes both to underscores, lowercasing along the way.
#[derive(Debug, Clone, PartialEq, Eq, Hash, PartialOrd, Ord)]
pub struct SlugDomain;

/// The substitution [`SlugDomain`] applies: hyphens and spaces become
/// underscores.
pub open spec fn spec_slugify_char(c: char) -> char {
    if c == '-' || c == ' ' {
        '_'
    } else {
        c
    }
}

impl KeyDomain for SlugDomain {
    const DOMAIN_NAME: &'static str = "slug";

    const HAS_CUSTOM_NORMALIZATION: bool = true;

    open spec fn spec_allowed(c: char) -> bool {
        spec_is_ascii_alphanumeric(c) || c == '_' || c == '-' || c == ' '
    }

    open spec fn spec_normalize(s: Seq<char>) -> Seq<char> {
        s.map_values(|c: char| spec_slugify_char(c))
    }

    open spec fn spec_help() -> Option<Seq<char>> {
        Some("Words separated by spaces or hyphens become underscore-separated slugs."@)
    }

    fn allowed_characters(c: char) -> (r: bool) {
        is_ascii_alphanumeric_fast(c) || c == '_' || c == '-' || c == ' '
    }

    fn allowed_start_character(c: char) -> (r: bool) {
        Self::allowed_characters(c) && c != '_' && c != '-' && c != '.'
    }

    fn allowed_end_character(c: char) -> (r: bool) {
        Self::allowed_characters(c) && c != '_' && c != '-' && c != '.'
    }

    fn allowed_consecutive_characters(prev: char, curr: char) -> (r: bool) {
        !(prev == curr && (prev == '_' || prev == '-' || prev == '.'))
    }

    fn normalize_domain(key: &str) -> (r: String) {
        let n = key.unicode_len();
        let mut out: Vec<char> = Vec::new();
        let mut i: usize = 0;
        while i < n
            invariant
                n == key@.len(),
                i <= n,
                out@ == Self::spec_normalize(key@).take(i as int),
            decreases n - i,
        {
            let c = key.get_char(i);
            let mapped = if c == '-' || c == ' ' {
                '_'
            } else {
                c
            };
            out.push(mapped);
            proof {
                assert(out@ =~= Self::spec_normalize(key@).take((i + 1) as int));
            }
            i = i + 1;
        }
        proof {
            assert(Self::spec_normalize(key@).take(n as int) =~= Self::spec_normalize(key@));
        }
        crate::text::chars_to_string(&out)
    }

    fn validate_domain_rules(key: &str) -> (r: Result<(), KeyParseError>) {
        Ok(())
    }

    fn default_separator() -> (r: char) {
        '_'
    }

    fn validation_help() -> (r: Option<&'static str>) {
        Some("Words separated by spaces or hyphens become underscore-separated slugs.")
    }

    fn examples() -> (r: Vec<&'static str>) {
        Vec::new()
    }

    proof fn normalize_stable(s: Seq<char>) {
        let f = |c: char| spec_slugify_char(c);
        lemma_charmap_normalize_stable(s, f);
        let t = spec_common_normal(s, true);
        assert(Self::spec_normalize(t) =~= t.map_values(f));
        assert(Self::spec_normalize(t.map_values(f)) =~= t.map_values(f).map_values(f));
    }
}

/// Multi-tenant domain: every key must carry the `tenant_` prefix, enforced
/// by the acceptance rule.
#[derive(Debug, Clone, PartialEq, Eq, Hash, PartialOrd, Ord)]
pub struct TenantDomain;

impl KeyDomain for TenantDomain {
    const DOMAIN_NAME: &'static str = "tenant";

    const HAS_CUSTOM_VALIDATION: bool = true;

    open spec fn spec_validate(s: Seq<char>) -> Result<(), ErrorSpec> {
        if spec_starts_with(s, "tenant_"@) {
            Ok(())
        } else {
            Err(ErrorSpec::DomainValidation {
                domain: "tenant"@,
                message: "Key must start with 'tenant_'"@,
            })
        }
    }

    open spec fn spec_help() -> Option<Seq<char>> {
        Some("Prefix every key with 'tenant_'."@)
    }

    fn allowed_characters(c: char) -> (r: bool) {
        is_key_char_fast(c)
    }

    fn allowed_start_character(c: char) -> (r: bool) {
        Self::allowed_characters(c) && c != '_' && c != '-' && c != '.'
    }

    fn allowed_end_character(c: char) -> (r: bool) {
        Self::allowed_characters(c) && c != '_' && c != '-' && c != '.'
    }

    fn allowed_consecutive_characters(prev: char, curr: char) -> (r: bool) {
        !(prev == curr && (prev == '_' || prev == '-' || prev == '.'))
    }

    fn normalize_domain(key: &str) -> (r: String) {
        key.to_owned()
    }

    fn validate_domain_rules(key: &str) -> (r: Result<(), KeyParseError>) {
        if starts_with_text(key, "tenant_") {
            Ok(())
        } else {
            Err(KeyParseError::domain_error(Self::DOMAIN_NAME, "Key must start with 'tenant_'"))
        }
    }

    fn default_separator() -> (r: char) {
        '_'
    }

    fn validation_help() -> (r: Option<&'static str>) {
        Some("Prefix every key with 'tenant_'.")
    }

    fn examples() -> (r: Vec<&'static str>) {
        Vec::new()
    }

    proof fn normalize_stable(s: Seq<char>) {
        lemma_common_normal_idempotent(s, Self::CASE_INSENSITIVE);
    }
}

/// A minimal domain with default rules under the name `macro_test`.
#[derive(Debug, Clone, PartialEq, Eq, Hash, PartialOrd, Ord)]
pub struct MacroTestDomain;

impl KeyDomain for MacroTestDomain {
    const DOMAIN_NAME: &'static str = "macro_test";

    fn allowed_characters(c: char) -> (r: bool) {
        is_key_char_fast(c)
    }

    fn allowed_start_character(c: char) -> (r: bool) {
        Self::allowed_characters(c) && c != '_' && c != '-' && c != '.'
    }

    fn allowed_end_character(c: char) -> (r: bool) {
        Self::allowed_characters(c) && c != '_' && c != '-' && c != '.'
    }

    fn allowed_consecutive_characters(prev: char, curr: char) -> (r: bool) {
        !(prev == curr && (prev == '_' || prev == '-' || prev == '.'))
    }

    fn normalize_domain(key: &str) -> (r: String) {
        key.to_owned()
    }

    fn validate_domain_rules(key: &str) -> (r: Result<(), KeyParseError>) {
        Ok(())
    }

    fn default_separator() -> (r: char) {
        '_'
    }

    fn validation_help() -> (r: Option<&'static str>) {
        None
    }

    fn examples() -> (r: Vec<&'static str>) {
        Vec::new()
    }

    proof fn normalize_stable(s: Seq<char>) {
        lemma_common_normal_idempotent(s, Self::CASE_INSENSITIVE);
    }
}

/// A domain with default rules that allows keys up to 256 characters.
#[derive(Debug, Clone, PartialEq, Eq, Hash, PartialOrd, Ord)]
pub struct LongDomain;

impl KeyDomain for LongDomain {
    const DOMAIN_NAME: &'static str = "long";

    const MAX_LENGTH: usize = 256;

    fn allowed_characters(c: char) -> (r: bool) {
        is_key_char_fast(c)
    }

    fn allowed_start_character(c: char) -> (r: bool) {
        Self::allowed_characters(c) && c != '_' && c != '-' && c != '.'
    }

    fn allowed_end_character(c: char) -> (r: bool) {
        Self::allowed_characters(c) && c != '_' && c != '-' && c != '.'
    }

    fn allowed_consecutive_characters(prev: char, curr: char) -> (r: bool) {
        !(prev == curr && (prev == '_' || prev == '-' || prev == '.'))
    }

    fn normalize_domain(key: &str) -> (r: String) {
        key.to_owned()
    }

    fn validate_domain_rules(key: &str) -> (r: Result<(), KeyParseError>) {
        Ok(())
    }

    fn default_separator() -> (r: char) {
        '_'
    }

    fn validation_help() -> (r: Option<&'static str>) {
        None
    }

    fn examples() -> (r: Vec<&'static str>) {
        Vec::new()
    }

    proof fn normalize_stable(s: Seq<char>) {
        lemma_common_normal_idempotent(s, Self::CASE_INSENSITIVE);
    }
}

} // verus!
