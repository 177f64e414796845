use domain_key::validation::{
    all_valid, any_valid, count_valid, filter_valid, is_valid_key, lenient_validator,
    quick_convert, strict_validator, validate_batch, validate_key, validation_info, IntoKey,
    ValidationBuilder, ValidationResult,
};
use domain_key::{ExampleDomain, Key, KeyParseError};

#[test]
fn test_is_valid_key() {
    assert!(is_valid_key::<ExampleDomain>("valid_key"));
    assert!(!is_valid_key::<ExampleDomain>(""));
    assert!(!is_valid_key::<ExampleDomain>("a".repeat(50).as_str()));
}

#[test]
fn test_validate_key() {
    assert!(validate_key::<ExampleDomain>("valid_key").is_ok());
    assert!(validate_key::<ExampleDomain>("").is_err());
}

#[test]
fn validation_test_validation_info() {
    let info = validation_info::<ExampleDomain>();
    assert!(info.contains("Domain: test"));
    assert!(info.contains("Max length: 32"));
    assert!(info.contains("Help: Test domain help"));
    assert!(info.contains("Examples: example1, example2"));
}

#[test]
fn test_validate_batch() {
    let keys = vec!["valid1", "", "valid2", "bad key"];
    let (valid, invalid) = validate_batch::<ExampleDomain>(&keys);

    assert_eq!(valid.len(), 2);
    assert_eq!(invalid.len(), 2);
    assert!(valid.contains(&"valid1".to_string()));
    assert!(valid.contains(&"valid2".to_string()));
}

#[test]
fn test_filter_valid() {
    let keys = vec!["valid1", "", "valid2", "bad key"];
    let valid = filter_valid::<ExampleDomain>(&keys);

    assert_eq!(valid.len(), 2);
    assert!(valid.contains(&"valid1".to_string()));
    assert!(valid.contains(&"valid2".to_string()));
}

#[test]
fn test_count_valid() {
    let keys = vec!["valid1", "", "valid2", "bad key"];
    let count = count_valid::<ExampleDomain>(&keys);
    assert_eq!(count, 2);
}

#[test]
fn test_all_valid() {
    let all_valid_keys = vec!["valid1", "valid2"];
    let mixed = vec!["valid1", "", "valid2"];

    assert!(all_valid::<ExampleDomain>(&all_valid_keys));
    assert!(!all_valid::<ExampleDomain>(&mixed));
}

#[test]
fn test_any_valid() {
    let mixed = vec!["", "valid1", ""];
    let all_invalid = vec!["", ""];

    assert!(any_valid::<ExampleDomain>(&mixed));
    assert!(!any_valid::<ExampleDomain>(&all_invalid));
}

#[test]
fn test_into_key_trait() {
    let key1: Key<ExampleDomain> = "test_key".into_key().unwrap();
    let key2: Key<ExampleDomain> = "another_key".to_string().into_key().unwrap();

    assert_eq!(key1.as_str(), "test_key");
    assert_eq!(key2.as_str(), "another_key");

    let invalid: Option<Key<ExampleDomain>> = "".try_into_key();
    assert!(invalid.is_none());
}

#[test]
fn test_validation_builder() {
    let builder = ValidationBuilder::<ExampleDomain>::new()
        .allow_empty_collection(true)
        .max_failures(2)
        .stop_on_first_error(false);

    let keys = vec!["valid1", "", "valid2", "", "valid3"];
    let result = builder.validate(&keys);

    println!("Total processed: {}", result.total_processed);
    println!("Valid count: {}", result.valid_count());
    println!("Error count: {}", result.error_count());
    println!("Valid keys: {:?}", result.valid);
    println!("Errors: {:?}", result.errors);

    assert_eq!(result.valid_count(), 2);
    assert_eq!(result.error_count(), 2);
    assert!(!result.is_success());
    assert_eq!(result.total_processed, 4);
}

#[test]
fn test_validation_builder_stop_on_first_error() {
    let builder = ValidationBuilder::<ExampleDomain>::new()
        .stop_on_first_error(true)
        .allow_empty_collection(false);

    let keys = vec!["valid", "", "another"];
    let result = builder.validate(&keys);

    assert_eq!(result.total_processed, 2);
    assert_eq!(result.valid_count(), 1);
    assert_eq!(result.error_count(), 1);
}

#[test]
fn test_validation_builder_no_stop_on_error() {
    let builder = ValidationBuilder::<ExampleDomain>::new()
        .stop_on_first_error(false)
        .allow_empty_collection(true);

    let keys = vec!["valid", "", "another"];
    let result = builder.validate(&keys);

    assert_eq!(result.total_processed, 3);
    assert_eq!(result.valid_count(), 2);
    assert_eq!(result.error_count(), 1);
}

#[test]
fn test_validation_result() {
    let keys = vec!["valid1", "valid2"];
    let (valid, errors) = validate_batch::<ExampleDomain>(&keys);

    let result = ValidationResult {
        total_processed: valid.len() + errors.len(),
        valid,
        errors,
    };

    assert!(result.is_success());
    assert_eq!(result.valid_count(), 2);
    assert_eq!(result.error_count(), 0);

    let keys = result.try_into_keys::<ExampleDomain>();
    assert_eq!(keys.len(), 2);
}

#[test]
fn test_strict_validator() {
    let validator = strict_validator::<ExampleDomain>();
    let keys = vec!["valid", "", "another"];
    let result = validator.validate(&keys);

    assert_eq!(result.total_processed, 2);
    assert_eq!(result.valid_count(), 1);
    assert_eq!(result.error_count(), 1);
}

#[test]
fn test_lenient_validator() {
    let validator = lenient_validator::<ExampleDomain>();
    let keys = vec!["valid", "", "another"];
    let result = validator.validate(&keys);

    assert_eq!(result.total_processed, 3);
    assert_eq!(result.valid_count(), 2);
    assert_eq!(result.error_count(), 1);
}

#[test]
fn test_quick_convert() {
    let strings = vec!["key1", "key2", "key3"];
    let keys = quick_convert::<ExampleDomain>(&strings).unwrap();
    assert_eq!(keys.len(), 3);

    let mixed = vec!["key1", "", "key2"];
    let result = quick_convert::<ExampleDomain>(&mixed);
    assert!(result.is_err());
}

#[test]
fn test_custom_validator() {
    fn custom_check(key: &str) -> Result<(), KeyParseError> {
        if key.starts_with("custom_") {
            Ok(())
        } else {
            Err(KeyParseError::custom(9999, "Must start with custom_"))
        }
    }

    let validator = ValidationBuilder::<ExampleDomain>::new().custom_validator(custom_check);

    let keys = vec!["custom_key", "invalid_key"];
    let result = validator.validate(&keys);

    assert_eq!(result.valid_count(), 1);
    assert_eq!(result.error_count(), 1);
}

#[test]
fn test_into_keys_conversion() {
    let keys = vec!["one_key", "two_key"];
    let (valid, errors) = validate_batch::<ExampleDomain>(&keys);
    let result = ValidationResult {
        total_processed: valid.len() + errors.len(),
        valid,
        errors,
    };
    let converted = result.into_keys::<ExampleDomain>().unwrap();
    assert_eq!(converted.len(), 2);
    assert_eq!(converted[0].as_str(), "one_key");
    assert_eq!(converted[1].as_str(), "two_key");
}
