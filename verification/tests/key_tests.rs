use domain_key::{DefaultDomain, Key, KeyParseError, SampleDomain};

type TestKey = Key<SampleDomain>;

#[test]
fn test_key_creation() {
    let key = TestKey::new("valid_key").unwrap();
    assert_eq!(key.as_str(), "valid_key");
    assert_eq!(key.domain(), "test");
    assert_eq!(key.len(), 9);
}

#[test]
fn test_key_normalization() {
    let key = TestKey::new("Test-Key").unwrap();
    assert_eq!(key.as_str(), "test_key");
}

#[test]
fn test_domain_validation() {
    let result = TestKey::new("invalid_key");
    assert!(result.is_err());

    if let Err(KeyParseError::DomainValidation { domain, message }) = result {
        assert_eq!(domain, "test");
        assert!(message.contains("invalid_"));
    } else {
        panic!("Expected domain validation error");
    }
}

#[test]
fn test_common_validation() {
    assert!(matches!(TestKey::new(""), Err(KeyParseError::Empty)));

    let long_key = "a".repeat(50);
    assert!(matches!(
        TestKey::new(&long_key),
        Err(KeyParseError::TooLong { max_length: 32, actual_length: 50 })
    ));

    let result = TestKey::new("key with spaces");
    assert!(matches!(
        result,
        Err(KeyParseError::InvalidCharacter { character: ' ', position: 3, .. })
    ));
}

#[test]
fn test_hash_caching() {
    let key1 = TestKey::new("test_key").unwrap();
    let key2 = TestKey::new("test_key").unwrap();

    assert_eq!(key1.hash(), key2.hash());

    let key3 = TestKey::new("different_key").unwrap();
    assert_ne!(key1.hash(), key3.hash());
}

#[test]
fn test_key_methods() {
    let key = TestKey::new("test_key_example").unwrap();
    assert!(key.starts_with("test_"));
    assert!(key.ends_with("_example"));
    assert!(key.contains("_key_"));
    assert_eq!(key.len(), 16);
    assert!(!key.is_empty());
}

#[test]
fn test_from_string() {
    let key = TestKey::from_string("test_key".to_string()).unwrap();
    assert_eq!(key.as_str(), "test_key");
}

#[test]
fn test_try_from_static() {
    let key = TestKey::try_from_static("static_key").unwrap();
    assert_eq!(key.as_str(), "static_key");

    let invalid = TestKey::try_from_static("");
    assert!(invalid.is_err());
}

#[test]
fn key_test_validation_info() {
    let key = TestKey::new("test_key").unwrap();
    let info = key.validation_info();

    assert_eq!(info.domain, "test");
    assert_eq!(info.max_length, 32);
    assert_eq!(info.length, 8);
    assert!(info.has_custom_validation);
    assert!(info.has_custom_normalization);
}

#[test]
fn test_from_parts() {
    let key = TestKey::from_parts(&["user", "123", "profile"], "_").unwrap();
    assert_eq!(key.as_str(), "user_123_profile");

    let mut parts = key.split('_');
    assert_eq!(parts.next(), Some("user".to_string()));
    assert_eq!(parts.next(), Some("123".to_string()));
    assert_eq!(parts.next(), Some("profile".to_string()));
    assert_eq!(parts.next(), None);
}

#[test]
fn test_ensure_prefix_suffix() {
    let key = TestKey::new("profile").unwrap();

    let prefixed = key.ensure_prefix("user_").unwrap();
    assert_eq!(prefixed.as_str(), "user_profile");

    let same = prefixed.ensure_prefix("user_").unwrap();
    assert_eq!(same.as_str(), "user_profile");

    let suffixed = key.ensure_suffix("_v1").unwrap();
    assert_eq!(suffixed.as_str(), "profile_v1");

    let same = suffixed.ensure_suffix("_v1").unwrap();
    assert_eq!(same.as_str(), "profile_v1");
}

#[test]
fn test_display_format() {
    let key = TestKey::new("example").unwrap();
    assert_eq!(key.display_string(), "test:example");
}

#[test]
fn test_string_conversion() {
    let key = TestKey::new("example").unwrap();
    let string: String = key.into();
    assert_eq!(string, "example");
}

#[test]
fn test_from_str() {
    let key: TestKey = "example".parse().unwrap();
    assert_eq!(key.as_str(), "example");
}

#[test]
fn key_test_default_domain() {
    type DefaultKey = Key<DefaultDomain>;
    let key = DefaultKey::new("test_key").unwrap();
    assert_eq!(key.domain(), "default");
    assert_eq!(key.as_str(), "test_key");
}

#[test]
fn test_length_caching() {
    let key = TestKey::new("test_key").unwrap();
    assert_eq!(key.len(), 8);
    assert_eq!(key.len(), 8);
}

#[test]
fn test_split_operations() {
    let key = TestKey::new("user_profile_settings").unwrap();

    let mut parts = key.split('_');
    assert_eq!(parts.next(), Some("user".to_string()));
    assert_eq!(parts.next(), Some("profile".to_string()));
    assert_eq!(parts.next(), Some("settings".to_string()));
    assert_eq!(parts.next(), None);

    let mut cached_parts = key.split_cached('_');
    assert_eq!(cached_parts.next(), Some("user".to_string()));
    assert_eq!(cached_parts.next(), Some("profile".to_string()));
    assert_eq!(cached_parts.next(), Some("settings".to_string()));
    assert_eq!(cached_parts.next(), None);

    let str_parts = key.split_str("_");
    assert_eq!(str_parts, vec!["user".to_string(), "profile".to_string(),
        "settings".to_string()]);
}

#[test]
fn test_key_equality_and_clone() {
    let a = TestKey::new("alpha_key").unwrap();
    let b = TestKey::new("Alpha-Key").unwrap();
    assert!(a == b);
    assert_eq!(a.hash(), b.hash());

    let c = a.clone();
    assert_eq!(c.as_str(), "alpha_key");
    assert_eq!(c.hash(), a.hash());
    assert_eq!(c.len(), a.len());
}
