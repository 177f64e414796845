//! Validation without key creation: single checks, batch helpers, and a
//! configurable batch validator.

use vstd::prelude::*;
use crate::domain::{spec_domain_normal, KeyDomain};
use crate::error::{ErrorSpec, KeyParseError};
use crate::key::{normalize_text, spec_construct, spec_validate_common, validate_common, Key};
use crate::text::{
    bool_text, decimal_string, join_optimized, push_char, spec_bool_text, spec_decimal,
    spec_join, spec_views,
};

verus! {

/// What validating a candidate without building a key returns: the common
/// pipeline on the raw text, and the domain's acceptance rule on the
/// normalized text, with the domain's error passed through as it is.
pub open spec fn spec_validate_key<T: KeyDomain>(s: Seq<char>) -> Result<(), ErrorSpec> {
    match spec_validate_common::<T>(s) {
        Err(e) => Err(e),
        Ok(u) => T::spec_validate(spec_domain_normal::<T>(s)),
    }
}

/// Validate a candidate key string without creating the key.
pub fn validate_key<T: KeyDomain>(key: &str) -> (r: Result<(), KeyParseError>)
    ensures
        match r {
            Ok(u) => spec_validate_key::<T>(key@) == Ok::<(), ErrorSpec>(()),
            Err(e) => spec_validate_key::<T>(key@) == Err::<(), ErrorSpec>(e@),
        },
{
    match validate_common::<T>(key) {
        Err(e) => return Err(e),
        Ok(u) => {},
    }
    let normalized = normalize_text::<T>(key);
    T::validate_domain_rules(normalized.as_str())
}

/// Whether a string would be accepted as a key of the domain.
pub fn is_valid_key<T: KeyDomain>(key: &str) -> (r: bool)
    ensures
        r == (spec_validate_key::<T>(key@) is Ok),
{
    validate_key::<T>(key).is_ok()
}

/// The domain's help text, if it offers any.
pub fn validation_help<T: KeyDomain>() -> (r: Option<&'static str>)
    ensures
        match r {
            Some(t) => T::spec_help() matches Some(h) && t@ == h,
            None => T::spec_help() is None,
        },
{
    T::validation_help()
}

/// The multi-line rendering of a domain's validation rules.
pub open spec fn spec_validation_info<T: KeyDomain>() -> Seq<char> {
    let base = "Domain: "@ + T::DOMAIN_NAME@ + "\n"@ + "Max length: "@
        + spec_decimal(T::MAX_LENGTH as int) + "\n"@ + "Min length: "@
        + spec_decimal(T::MIN_LENGTH as int) + "\n"@ + "Expected length: "@
        + spec_decimal(T::EXPECTED_LENGTH as int) + "\n"@ + "Case insensitive: "@
        + spec_bool_text(T::CASE_INSENSITIVE) + "\n"@ + "Custom validation: "@
        + spec_bool_text(T::HAS_CUSTOM_VALIDATION) + "\n"@ + "Custom normalization: "@
        + spec_bool_text(T::HAS_CUSTOM_NORMALIZATION) + "\n"@ + "Default separator: '"@
        + seq![T::spec_separator()] + "'\n"@;
    let with_help = match T::spec_help() {
        Some(h) => base + "Help: "@ + h + "\n"@,
        None => base,
    };
    if T::spec_examples().len() > 0 {
        with_help + "Examples: "@ + spec_join(T::spec_examples(), ", "@) + "\n"@
    } else {
        with_help
    }
}

/// Render a domain's validation rules and characteristics over several
/// lines.
pub fn validation_info<T: KeyDomain>() -> (r: String)
    ensures
        r@ == spec_validation_info::<T>(),
{
    let mut out = "Domain: ".to_owned();
    out.append(T::DOMAIN_NAME);
    out.append("\n");
    out.append("Max length: ");
    let maximum = decimal_string(T::MAX_LENGTH as u64);
    out.append(maximum.as_str());
    out.append("\n");
    out.append("Min length: ");
    let minimum = decimal_string(T::min_length() as u64);
    out.append(minimum.as_str());
    out.append("\n");
    out.append("Expected length: ");
    let expected = decimal_string(T::EXPECTED_LENGTH as u64);
    out.append(expected.as_str());
    out.append("\n");
    out.append("Case insensitive: ");
    out.append(bool_text(T::CASE_INSENSITIVE));
    out.append("\n");
    out.append("Custom validation: ");
    out.append(bool_text(T::HAS_CUSTOM_VALIDATION));
    out.append("\n");
    out.append("Custom normalization: ");
    out.append(bool_text(T::HAS_CUSTOM_NORMALIZATION));
    out.append("\n");
    out.append("Default separator: '");
    push_char(&mut out, T::default_separator());
    out.append("'\n");
    match T::validation_help() {
        Some(h) => {
            out.append("Help: ");
            out.append(h);
            out.append("\n");
        },
        None => {},
    }
    let examples = T::examples();
    if examples.len() > 0 {
        out.append("Examples: ");
        let joined = join_optimized(examples.as_slice(), ", ");
        proof {
            assert(spec_views(examples@) =~~= T::spec_examples());
        }
        out.append(joined.as_str());
        out.append("\n");
    }
    out
}

// ---------------------------------------------------------------------------
// Batch helpers
// ---------------------------------------------------------------------------

/// The views of a batch of candidate strings.
pub open spec fn spec_key_views(keys: Seq<&str>) -> Seq<Seq<char>> {
    keys.map_values(|k: &str| k@)
}

/// The candidates of a batch that validate, in order.
pub open spec fn spec_batch_valid<T: KeyDomain>(keys: Seq<Seq<char>>) -> Seq<Seq<char>>
    decreases keys.len(),
{
    if keys.len() == 0 {
        Seq::empty()
    } else {
        let prefix = spec_batch_valid::<T>(keys.drop_last());
        if spec_validate_key::<T>(keys.last()) is Ok {
            prefix.push(keys.last())
        } else {
            prefix
        }
    }
}

/// The candidates of a batch that fail, each with its error, in order.
pub open spec fn spec_batch_errors<T: KeyDomain>(keys: Seq<Seq<char>>) -> Seq<
    (Seq<char>, ErrorSpec),
>
    decreases keys.len(),
{
    if keys.len() == 0 {
        Seq::empty()
    } else {
        let prefix = spec_batch_errors::<T>(keys.drop_last());
        match spec_validate_key::<T>(keys.last()) {
            Ok(u) => prefix,
            Err(e) => prefix.push((keys.last(), e)),
        }
    }
}

/// Validate many candidates at once, sorting them into the accepted strings
/// and the rejected ones paired with their errors.
pub fn validate_batch<T: KeyDomain>(keys: &[&str]) -> (r: (
    Vec<String>,
    Vec<(String, KeyParseError)>,
))
    ensures
        r.0@.len() == spec_batch_valid::<T>(spec_key_views(keys@)).len(),
        forall|i: int| 0 <= i < r.0@.len()
            ==> r.0@[i]@ == spec_batch_valid::<T>(spec_key_views(keys@))[i],
        r.1@.len() == spec_batch_errors::<T>(spec_key_views(keys@)).len(),
        forall|i: int| 0 <= i < r.1@.len()
            ==> r.1@[i].0@ == spec_batch_errors::<T>(spec_key_views(keys@))[i].0
                && r.1@[i].1@ == spec_batch_errors::<T>(spec_key_views(keys@))[i].1,
{
    let ghost gk = spec_key_views(keys@);
    let mut valid: Vec<String> = Vec::new();
    let mut invalid: Vec<(String, KeyParseError)> = Vec::new();
    let mut i: usize = 0;
    proof {
        assert(gk.take(0) =~= Seq::<Seq<char>>::empty());
    }
    while i < keys.len()
        invariant
            gk == spec_key_views(keys@),
            i <= keys@.len(),
            valid@.len() == spec_batch_valid::<T>(gk.take(i as int)).len(),
            forall|j: int| 0 <= j < valid@.len()
                ==> valid@[j]@ == spec_batch_valid::<T>(gk.take(i as int))[j],
            invalid@.len() == spec_batch_errors::<T>(gk.take(i as int)).len(),
            forall|j: int| 0 <= j < invalid@.len()
                ==> invalid@[j].0@ == spec_batch_errors::<T>(gk.take(i as int))[j].0
                    && invalid@[j].1@ == spec_batch_errors::<T>(gk.take(i as int))[j].1,
        decreases keys@.len() - i,
    {
        proof {
            assert(gk.take((i + 1) as int).drop_last() =~= gk.take(i as int));
            assert(gk.take((i + 1) as int).last() == gk[i as int]);
        }
        let key = keys[i];
        match validate_key::<T>(key) {
            Ok(u) => {
                valid.push(key.to_owned());
            },
            Err(e) => {
                invalid.push((key.to_owned(), e));
            },
        }
        i = i + 1;
    }
    proof {
        assert(gk.take(gk.len() as int) =~= gk);
    }
    (valid, invalid)
}

/// Keep only the candidates that would be valid keys.
pub fn filter_valid<T: KeyDomain>(keys: &[&str]) -> (r: Vec<String>)
    ensures
        r@.len() == spec_batch_valid::<T>(spec_key_views(keys@)).len(),
        forall|i: int| 0 <= i < r@.len()
            ==> r@[i]@ == spec_batch_valid::<T>(spec_key_views(keys@))[i],
{
    let (valid, invalid) = validate_batch::<T>(keys);
    valid
}

/// Count the candidates that would be valid keys.
pub fn count_valid<T: KeyDomain>(keys: &[&str]) -> (r: usize)
    ensures
        r == spec_batch_valid::<T>(spec_key_views(keys@)).len(),
{
    let (valid, invalid) = validate_batch::<T>(keys);
    valid.len()
}

/// Whether every candidate would be a valid key.
pub fn all_valid<T: KeyDomain>(keys: &[&str]) -> (r: bool)
    ensures
        r == (forall|i: int| 0 <= i < keys@.len()
            ==> #[trigger] spec_validate_key::<T>(keys@[i]@) is Ok),
{
    let mut i: usize = 0;
    while i < keys.len()
        invariant
            i <= keys@.len(),
            forall|j: int| 0 <= j < i ==> #[trigger] spec_validate_key::<T>(keys@[j]@) is Ok,
        decreases keys@.len() - i,
    {
        if !is_valid_key::<T>(keys[i]) {
            return false;
        }
        i = i + 1;
    }
    true
}

/// Whether at least one candidate would be a valid key.
pub fn any_valid<T: KeyDomain>(keys: &[&str]) -> (r: bool)
    ensures
        r == (exists|i: int| 0 <= i < keys@.len()
            && #[trigger] spec_validate_key::<T>(keys@[i]@) is Ok),
{
    let mut i: usize = 0;
    while i < keys.len()
        invariant
            i <= keys@.len(),
            forall|j: int| 0 <= j < i ==> !(#[trigger] spec_validate_key::<T>(keys@[j]@) is Ok),
        decreases keys@.len() - i,
    {
        if is_valid_key::<T>(keys[i]) {
            return true;
        }
        i = i + 1;
    }
    false
}

// ---------------------------------------------------------------------------
// Conversion trait
// ---------------------------------------------------------------------------

/// Conversion of string-like values into keys.
pub trait IntoKey<T: KeyDomain>: Sized {
    /// The characters of the value to be converted.
    spec fn key_text(self) -> Seq<char>;

    /// Convert into a key, reporting the pipeline's error on failure.
    fn into_key(self) -> (r: Result<Key<T>, KeyParseError>)
        ensures
            match r {
                Ok(k) => spec_construct::<T>(self.key_text()) == Ok::<Seq<char>, ErrorSpec>(k@),
                Err(e) => spec_construct::<T>(self.key_text())
                    == Err::<Seq<char>, ErrorSpec>(e@),
            },
    ;

    /// Convert into a key, dropping the error detail on failure.
    fn try_into_key(self) -> (r: Option<Key<T>>)
        ensures
            match r {
                Some(k) => spec_construct::<T>(self.key_text())
                    == Ok::<Seq<char>, ErrorSpec>(k@),
                None => spec_construct::<T>(self.key_text()) is Err,
            },
    ;
}

impl<T: KeyDomain> IntoKey<T> for &str {
    open spec fn key_text(self) -> Seq<char> {
        self@
    }

    fn into_key(self) -> (r: Result<Key<T>, KeyParseError>) {
        Key::new(self)
    }

    fn try_into_key(self) -> (r: Option<Key<T>>) {
        Key::try_new(self)
    }
}

impl<T: KeyDomain> IntoKey<T> for String {
    open spec fn key_text(self) -> Seq<char> {
        self@
    }

    fn into_key(self) -> (r: Result<Key<T>, KeyParseError>) {
        Key::from_string(self)
    }

    fn try_into_key(self) -> (r: Option<Key<T>>) {
        match Key::from_string(self) {
            Ok(k) => Some(k),
            Err(e) => None,
        }
    }
}

impl<T: KeyDomain> IntoKey<T> for &String {
    open spec fn key_text(self) -> Seq<char> {
        self@
    }

    fn into_key(self) -> (r: Result<Key<T>, KeyParseError>) {
        Key::new(self.as_str())
    }

    fn try_into_key(self) -> (r: Option<Key<T>>) {
        Key::try_new(self.as_str())
    }
}

// ---------------------------------------------------------------------------
// Configurable batch validation
// ---------------------------------------------------------------------------

/// What a configured batch run produces from position `i` on, given `nerr`
/// failures so far: the accepted texts, the rejected texts with their
/// errors, and how many candidates were looked at before a stop rule ended
/// the run.
pub open spec fn spec_builder_run<T: KeyDomain>(
    keys: Seq<Seq<char>>,
    i: int,
    nerr: nat,
    max_failures: Option<usize>,
    stop_on_first_error: bool,
) -> (Seq<Seq<char>>, Seq<(Seq<char>, ErrorSpec)>, nat)
    decreases keys.len() - i,
{
    if i < 0 || i >= keys.len() {
        (Seq::empty(), Seq::empty(), 0)
    } else if (match max_failures {
        Some(m) => nerr >= m,
        None => false,
    }) || (stop_on_first_error && nerr > 0) {
        (Seq::empty(), Seq::empty(), 0)
    } else {
        match spec_validate_key::<T>(keys[i]) {
            Ok(u) => {
                let rest = spec_builder_run::<T>(keys, i + 1, nerr, max_failures,
                    stop_on_first_error);
                (seq![keys[i]] + rest.0, rest.1, 1 + rest.2)
            },
            Err(e) => {
                let rest = spec_builder_run::<T>(keys, i + 1, nerr + 1, max_failures,
                    stop_on_first_error);
                (rest.0, seq![(keys[i], e)] + rest.1, 1 + rest.2)
            },
        }
    }
}

fn run_builder<T: KeyDomain>(
    keys: &[&str],
    i: usize,
    nerr: usize,
    max_failures: Option<usize>,
    stop_on_first_error: bool,
) -> (r: (Vec<String>, Vec<(String, KeyParseError)>, usize))
    requires
        i <= keys@.len(),
        nerr <= i,
    ensures
        ({
            let spec = spec_builder_run::<T>(spec_key_views(keys@), i as int, nerr as nat,
                max_failures, stop_on_first_error);
            &&& r.0@.len() == spec.0.len()
            &&& (forall|j: int| 0 <= j < r.0@.len() ==> r.0@[j]@ == spec.0[j])
            &&& r.1@.len() == spec.1.len()
            &&& (forall|j: int| 0 <= j < r.1@.len()
                ==> r.1@[j].0@ == spec.1[j].0 && r.1@[j].1@ == spec.1[j].1)
            &&& r.2 as nat == spec.2
            &&& r.2 <= keys@.len() - i
            &&& r.2 == r.0@.len() + r.1@.len()
        }),
    decreases keys@.len() - i,
{
    let ghost gk = spec_key_views(keys@);
    if i >= keys.len() {
        return (Vec::new(), Vec::new(), 0);
    }
    let hit_max = match max_failures {
        Some(m) => nerr >= m,
        None => false,
    };
    if hit_max || (stop_on_first_error && nerr > 0) {
        return (Vec::new(), Vec::new(), 0);
    }
    match validate_key::<T>(keys[i]) {
        Ok(u) => {
            let rest = run_builder::<T>(keys, i + 1, nerr, max_failures, stop_on_first_error);
            let (mut valid, errors, count) = rest;
            valid.insert(0, keys[i].to_owned());
            (valid, errors, count + 1)
        },
        Err(e) => {
            let rest = run_builder::<T>(keys, i + 1, nerr + 1, max_failures,
                stop_on_first_error);
            let (valid, mut errors, count) = rest;
            errors.insert(0, (keys[i].to_owned(), e));
            (valid, errors, count + 1)
        },
    }
}

/// Configuration for validating a whole collection of candidates: whether
/// an empty collection counts as an error, how many failures to tolerate,
/// and whether to stop at the first failure.
#[derive(Debug)]
pub struct ValidationBuilder<T: KeyDomain> {
    /// Whether an empty input collection is acceptable.
    pub allow_empty_collection: bool,
    /// Stop once this many candidates have failed.
    pub max_failures: Option<usize>,
    /// Stop at the first failing candidate.
    pub stop_on_first_error: bool,
    /// The domain the candidates are validated for.
    pub domain: core::marker::PhantomData<T>,
}

impl<T: KeyDomain> ValidationBuilder<T> {
    /// A builder with the default settings: empty collections rejected, no
    /// failure limit, no early stop.
    pub fn new() -> (r: Self)
        ensures
            !r.allow_empty_collection,
            r.max_failures is None,
            !r.stop_on_first_error,
    {
        ValidationBuilder {
            allow_empty_collection: false,
            max_failures: None,
            stop_on_first_error: false,
            domain: core::marker::PhantomData,
        }
    }

    /// Choose whether an empty collection is acceptable.
    pub fn allow_empty_collection(self, allow: bool) -> (r: Self)
        ensures
            r.allow_empty_collection == allow,
            r.max_failures == self.max_failures,
            r.stop_on_first_error == self.stop_on_first_error,
    {
        ValidationBuilder { allow_empty_collection: allow, ..self }
    }

    /// Stop validating once this many candidates have failed.
    pub fn max_failures(self, max: usize) -> (r: Self)
        ensures
            r.max_failures == Some(max),
            r.allow_empty_collection == self.allow_empty_collection,
            r.stop_on_first_error == self.stop_on_first_error,
    {
        ValidationBuilder { max_failures: Some(max), ..self }
    }

    /// Choose whether to stop at the first failing candidate.
    pub fn stop_on_first_error(self, stop: bool) -> (r: Self)
        ensures
            r.stop_on_first_error == stop,
            r.allow_empty_collection == self.allow_empty_collection,
            r.max_failures == self.max_failures,
    {
        ValidationBuilder { stop_on_first_error: stop, ..self }
    }

    /// Add a caller-supplied acceptance check on top of the domain's rules.
    pub fn custom_validator<F: Fn(&str) -> Result<(), KeyParseError>>(self, validator: F) -> (r:
        CustomValidationBuilder<T, F>)
        ensures
            r.base.allow_empty_collection == self.allow_empty_collection,
            r.base.max_failures == self.max_failures,
            r.base.stop_on_first_error == self.stop_on_first_error,
    {
        CustomValidationBuilder { base: self, validator }
    }

    /// Validate a collection of candidates under the configured settings.
    pub fn validate(&self, keys: &[&str]) -> (r: ValidationResult)
        ensures
            keys@.len() == 0 && !self.allow_empty_collection ==> ({
                &&& r.total_processed == 0
                &&& r.valid@.len() == 0
                &&& r.errors@.len() == 1
                &&& r.errors@[0].0@ == Seq::<char>::empty()
                &&& r.errors@[0].1@ == ErrorSpec::Empty
            }),
            !(keys@.len() == 0 && !self.allow_empty_collection) ==> ({
                let spec = spec_builder_run::<T>(spec_key_views(keys@), 0, 0,
                    self.max_failures, self.stop_on_first_error);
                &&& r.valid@.len() == spec.0.len()
                &&& (forall|j: int| 0 <= j < r.valid@.len() ==> r.valid@[j]@ == spec.0[j])
                &&& r.errors@.len() == spec.1.len()
                &&& (forall|j: int| 0 <= j < r.errors@.len()
                    ==> r.errors@[j].0@ == spec.1[j].0 && r.errors@[j].1@ == spec.1[j].1)
                &&& r.total_processed as nat == spec.2
            }),
    {
        if keys.len() == 0 && !self.allow_empty_collection {
            let mut errors: Vec<(String, KeyParseError)> = Vec::new();
            errors.push((String::new(), KeyParseError::Empty));
            return ValidationResult { total_processed: 0, valid: Vec::new(), errors };
        }
        let outcome = run_builder::<T>(keys, 0, 0, self.max_failures, self.stop_on_first_error);
        let (valid, errors, total) = outcome;
        ValidationResult { total_processed: total, valid, errors }
    }
}

impl<T: KeyDomain> Default for ValidationBuilder<T> {
    /// Same settings as [`ValidationBuilder::new`].
    fn default() -> (r: Self)
        ensures
            !r.allow_empty_collection,
            r.max_failures is None,
            !r.stop_on_first_error,
    {
        ValidationBuilder::new()
    }
}

/// Every string of `valid` is one of the candidates in `keys` that the
/// domain's own rules accept.
pub open spec fn spec_all_from_accepted<T: KeyDomain>(valid: Seq<String>, keys: Seq<&str>) -> bool {
    forall|j: int| 0 <= j < valid.len()
        ==> exists|k: int| 0 <= k < keys.len()
            && (#[trigger] valid[j])@ == #[trigger] keys[k]@
            && spec_validate_key::<T>(keys[k]@) is Ok
}

/// A [`ValidationBuilder`] extended with a caller-supplied acceptance
/// check, run after the domain's own rules accept a candidate.
pub struct CustomValidationBuilder<T: KeyDomain, F: Fn(&str) -> Result<(), KeyParseError>> {
    /// The underlying configuration.
    pub base: ValidationBuilder<T>,
    /// The additional acceptance check.
    pub validator: F,
}

impl<T: KeyDomain, F: Fn(&str) -> Result<(), KeyParseError>> CustomValidationBuilder<T, F> {
    /// Validate a collection of candidates: a candidate counts as valid
    /// when the domain's rules and the caller's check both accept it.  What
    /// the caller's check decides is its own; every candidate it accepted
    /// passed the domain's rules.
    pub fn validate(&self, keys: &[&str]) -> (r: ValidationResult)
        requires
            forall|s: &str| self.validator.requires((s,)),
        ensures
            keys@.len() == 0 && !self.base.allow_empty_collection ==> ({
                &&& r.total_processed == 0
                &&& r.valid@.len() == 0
                &&& r.errors@.len() == 1
            }),
            !(keys@.len() == 0 && !self.base.allow_empty_collection)
                ==> r.total_processed == r.valid@.len() + r.errors@.len(),
            spec_all_from_accepted::<T>(r.valid@, keys@),
    {
        if keys.len() == 0 && !self.base.allow_empty_collection {
            let mut errors: Vec<(String, KeyParseError)> = Vec::new();
            errors.push((String::new(), KeyParseError::Empty));
            return ValidationResult { total_processed: 0, valid: Vec::new(), errors };
        }
        let mut valid: Vec<String> = Vec::new();
        let mut errors: Vec<(String, KeyParseError)> = Vec::new();
        let mut i: usize = 0;
        while i < keys.len()
            invariant
                i <= keys@.len(),
                valid@.len() + errors@.len() <= i,
                forall|s: &str| self.validator.requires((s,)),
                spec_all_from_accepted::<T>(valid@, keys@),
            decreases keys@.len() - i,
        {
            let hit_max = match self.base.max_failures {
                Some(m) => errors.len() >= m,
                None => false,
            };
            if hit_max || (self.base.stop_on_first_error && errors.len() > 0) {
                break;
            }
            let key = keys[i];
            match validate_key::<T>(key) {
                Ok(u) => {
                    match (self.validator)(key) {
                        Ok(u2) => {
                            valid.push(key.to_owned());
                            proof {
                                assert(valid@.last()@ == keys@[i as int]@);
                                assert(spec_validate_key::<T>(keys@[i as int]@) is Ok);
                            }
                        },
                        Err(e) => {
                            errors.push((key.to_owned(), e));
                        },
                    }
                },
                Err(e) => {
                    errors.push((key.to_owned(), e));
                },
            }
            i = i + 1;
        }
        let total = valid.len() + errors.len();
        ValidationResult { total_processed: total, valid, errors }
    }
}

/// The outcome of a batch validation run.
#[derive(Debug, Clone)]
pub struct ValidationResult {
    /// How many candidates were looked at before the run ended.
    pub total_processed: usize,
    /// The accepted candidates.
    pub valid: Vec<String>,
    /// The rejected candidates with their errors.
    pub errors: Vec<(String, KeyParseError)>,
}

/// The keys buildable from the accepted strings of a result, in order,
/// skipping any that the whole pipeline would reject.
pub open spec fn spec_buildable_keys<T: KeyDomain>(valid: Seq<Seq<char>>) -> Seq<Seq<char>>
    decreases valid.len(),
{
    if valid.len() == 0 {
        Seq::empty()
    } else {
        let prefix = spec_buildable_keys::<T>(valid.drop_last());
        match spec_construct::<T>(valid.last()) {
            Ok(t) => prefix.push(t),
            Err(e) => prefix,
        }
    }
}

impl ValidationResult {
    /// Whether every processed candidate was accepted.
    pub fn is_success(&self) -> (r: bool)
        ensures
            r == (self.errors@.len() == 0),
    {
        self.errors.is_empty()
    }

    /// How many candidates were accepted.
    pub fn valid_count(&self) -> (r: usize)
        ensures
            r == self.valid@.len(),
    {
        self.valid.len()
    }

    /// How many candidates were rejected.
    pub fn error_count(&self) -> (r: usize)
        ensures
            r == self.errors@.len(),
    {
        self.errors.len()
    }

    /// Convert every accepted string into a key, failing on the first one
    /// the whole pipeline rejects.
    pub fn into_keys<T: KeyDomain>(self) -> (r: Result<Vec<Key<T>>, KeyParseError>)
        ensures
            match r {
                Ok(ks) => {
                    &&& ks@.len() == self.valid@.len()
                    &&& forall|i: int| 0 <= i < ks@.len()
                        ==> spec_construct::<T>(self.valid@[i]@)
                            == Ok::<Seq<char>, ErrorSpec>(ks@[i]@)
                },
                Err(e) => exists|i: int| 0 <= i < self.valid@.len()
                    && spec_construct::<T>(#[trigger] self.valid@[i]@)
                        == Err::<Seq<char>, ErrorSpec>(e@),
            },
    {
        let mut keys: Vec<Key<T>> = Vec::new();
        let mut i: usize = 0;
        while i < self.valid.len()
            invariant
                i <= self.valid@.len(),
                keys@.len() == i,
                forall|j: int| 0 <= j < i
                    ==> spec_construct::<T>(self.valid@[j]@)
                        == Ok::<Seq<char>, ErrorSpec>(keys@[j]@),
            decreases self.valid@.len() - i,
        {
            match Key::<T>::new(self.valid[i].as_str()) {
                Ok(k) => {
                    keys.push(k);
                },
                Err(e) => {
                    return Err(e);
                },
            }
            i = i + 1;
        }
        Ok(keys)
    }

    /// Convert the accepted strings into keys, skipping any the whole
    /// pipeline rejects.
    pub fn try_into_keys<T: KeyDomain>(self) -> (r: Vec<Key<T>>)
        ensures
            r@.len() == spec_buildable_keys::<T>(spec_string_views(self.valid@)).len(),
            forall|i: int| 0 <= i < r@.len()
                ==> r@[i]@ == spec_buildable_keys::<T>(spec_string_views(self.valid@))[i],
    {
        let ghost gv = spec_string_views(self.valid@);
        let mut keys: Vec<Key<T>> = Vec::new();
        let mut i: usize = 0;
        proof {
            assert(gv.take(0) =~= Seq::<Seq<char>>::empty());
        }
        while i < self.valid.len()
            invariant
                gv == spec_string_views(self.valid@),
                i <= self.valid@.len(),
                keys@.len() == spec_buildable_keys::<T>(gv.take(i as int)).len(),
                forall|j: int| 0 <= j < keys@.len()
                    ==> keys@[j]@ == spec_buildable_keys::<T>(gv.take(i as int))[j],
            decreases self.valid@.len() - i,
        {
            proof {
                assert(gv.take((i + 1) as int).drop_last() =~= gv.take(i as int));
                assert(gv.take((i + 1) as int).last() == gv[i as int]);
            }
            match Key::<T>::new(self.valid[i].as_str()) {
                Ok(k) => {
                    keys.push(k);
                },
                Err(e) => {},
            }
            i = i + 1;
        }
        proof {
            assert(gv.take(gv.len() as int) =~= gv);
        }
        keys
    }
}

/// The views of a sequence of owned strings.
pub open spec fn spec_string_views(keys: Seq<String>) -> Seq<Seq<char>> {
    keys.map_values(|k: String| k@)
}

/// A builder that stops at the first error and rejects empty collections.
pub fn strict_validator<T: KeyDomain>() -> (r: ValidationBuilder<T>)
    ensures
        !r.allow_empty_collection,
        r.max_failures is None,
        r.stop_on_first_error,
{
    ValidationBuilder::new().stop_on_first_error(true).allow_empty_collection(false)
}

/// A builder that processes everything and accepts empty collections.
pub fn lenient_validator<T: KeyDomain>() -> (r: ValidationBuilder<T>)
    ensures
        r.allow_empty_collection,
        r.max_failures is None,
        !r.stop_on_first_error,
{
    ValidationBuilder::new().stop_on_first_error(false).allow_empty_collection(true)
}

/// The candidates the whole construction pipeline rejects, each with its
/// error, in order.
pub open spec fn spec_convert_errors<T: KeyDomain>(keys: Seq<Seq<char>>) -> Seq<
    (Seq<char>, ErrorSpec),
>
    decreases keys.len(),
{
    if keys.len() == 0 {
        Seq::empty()
    } else {
        let prefix = spec_convert_errors::<T>(keys.drop_last());
        match spec_construct::<T>(keys.last()) {
            Ok(t) => prefix,
            Err(e) => prefix.push((keys.last(), e)),
        }
    }
}

/// Validate a collection and convert it wholesale: all keys on success,
/// otherwise every rejected candidate with its pipeline error.
pub fn quick_convert<T: KeyDomain>(keys: &[&str]) -> (r: Result<
    Vec<Key<T>>,
    Vec<(String, KeyParseError)>,
>)
    ensures
        match r {
            Ok(ks) => {
                &&& spec_convert_errors::<T>(spec_key_views(keys@)).len() == 0
                &&& ks@.len() == keys@.len()
                &&& forall|i: int| 0 <= i < ks@.len()
                    ==> spec_construct::<T>(#[trigger] keys@[i]@)
                        == Ok::<Seq<char>, ErrorSpec>(ks@[i]@)
            },
            Err(es) => {
                &&& es@.len() == spec_convert_errors::<T>(spec_key_views(keys@)).len()
                &&& es@.len() > 0
                &&& forall|i: int| 0 <= i < es@.len()
                    ==> es@[i].0@ == spec_convert_errors::<T>(spec_key_views(keys@))[i].0
                        && es@[i].1@ == spec_convert_errors::<T>(spec_key_views(keys@))[i].1
            },
        },
{
    let ghost gk = spec_key_views(keys@);
    let mut keys_out: Vec<Key<T>> = Vec::new();
    let mut errors: Vec<(String, KeyParseError)> = Vec::new();
    let mut i: usize = 0;
    proof {
        assert(gk.take(0) =~= Seq::<Seq<char>>::empty());
    }
    while i < keys.len()
        invariant
            gk == spec_key_views(keys@),
            i <= keys@.len(),
            errors@.len() == spec_convert_errors::<T>(gk.take(i as int)).len(),
            forall|j: int| 0 <= j < errors@.len()
                ==> errors@[j].0@ == spec_convert_errors::<T>(gk.take(i as int))[j].0
                    && errors@[j].1@ == spec_convert_errors::<T>(gk.take(i as int))[j].1,
            errors@.len() == 0 ==> keys_out@.len() == i,
            errors@.len() == 0 ==> forall|j: int| 0 <= j < keys_out@.len()
                ==> spec_construct::<T>(#[trigger] gk[j])
                    == Ok::<Seq<char>, ErrorSpec>(keys_out@[j]@),
        decreases keys@.len() - i,
    {
        proof {
            assert(gk.take((i + 1) as int).drop_last() =~= gk.take(i as int));
            assert(gk.take((i + 1) as int).last() == gk[i as int]);
        }
        let key = keys[i];
        match Key::<T>::new(key) {
            Ok(k) => {
                if errors.len() == 0 {
                    keys_out.push(k);
                }
            },
            Err(e) => {
                errors.push((key.to_owned(), e));
            },
        }
        i = i + 1;
    }
    proof {
        assert(gk.take(gk.len() as int) =~= gk);
        assert(forall|j: int| 0 <= j < gk.len() ==> gk[j] == #[trigger] keys@[j]@);
    }
    if errors.len() == 0 {
        Ok(keys_out)
    } else {
        Err(errors)
    }
}

} // verus!
