//! Validated, normalized, type-tagged string identifiers.
//!
//! A key is an immutable string value that has passed a domain's validation
//! pipeline: trimming, length bounds, character and structure checks,
//! normalization, and a domain-specific acceptance rule.  The key caches its
//! scalar length and a 64-bit hash of its text so that both are available in
//! constant time.  Domains are zero-sized marker types implementing
//! `KeyDomain`, so keys of different domains can never be mixed up.

pub mod chars;
pub mod domain;
pub mod error;
pub mod features;
pub mod key;
pub mod text;
pub mod utils;
pub mod validation;

pub use domain::{
    domain_info, domains_compatible, DefaultDomain, DomainInfo, ExampleDomain, IdentifierDomain,
    KeyDomain, LongDomain, MacroTestDomain, PathDomain, SampleDomain, SlugDomain, TenantDomain,
};
pub use error::{ErrorCategory, KeyParseError};
pub use features::hash_algorithm;
pub use key::{Key, KeyValidationInfo, SplitIterator, DEFAULT_MAX_KEY_LENGTH};
pub use utils::new_split_cache;
pub use validation::{
    all_valid, any_valid, count_valid, filter_valid, is_valid_key, lenient_validator,
    quick_convert, strict_validator, validate_batch, validate_key, validation_help,
    validation_info, IntoKey, ValidationBuilder, ValidationResult,
};

use vstd::prelude::*;

verus! {

/// Result alias for fallible key operations.
pub type KeyResult<T> = Result<T, KeyParseError>;

} // verus!
