use domain_key::key::compute_hash;
use domain_key::{
    DefaultDomain, ExampleDomain, Key, KeyParseError, PathDomain, SlugDomain, TenantDomain,
};

type BasicKey = Key<ExampleDomain>;
type DefaultKey = Key<DefaultDomain>;
type SlugKey = Key<SlugDomain>;
type TenantKey = Key<TenantDomain>;

#[test]
fn test_scenario_basic_domain() {
    let key = BasicKey::new("alice").unwrap();
    assert_eq!(key.as_str(), "alice");
    assert_eq!(key.len(), 5);

    assert!(matches!(BasicKey::new(""), Err(KeyParseError::Empty)));
}

#[test]
fn test_scenario_slug_normalization() {
    let key = SlugKey::new("Gaming Laptop").unwrap();
    assert_eq!(key.as_str(), "gaming_laptop");
}

#[test]
fn test_scenario_multipart_and_split() {
    let key = BasicKey::from_parts(&["user", "123", "profile"], "_").unwrap();
    assert_eq!(key.as_str(), "user_123_profile");

    let mut parts = key.split('_');
    assert_eq!(parts.next(), Some("user".to_string()));
    assert_eq!(parts.next(), Some("123".to_string()));
    assert_eq!(parts.next(), Some("profile".to_string()));
    assert_eq!(parts.next(), None);
}

#[test]
fn test_scenario_tenant_prefix() {
    let key = TenantKey::new("tenant_acme").unwrap();
    assert_eq!(key.as_str(), "tenant_acme");

    let rejected = TenantKey::new("acme");
    match rejected {
        Err(KeyParseError::DomainValidation { domain, .. }) => assert_eq!(domain, "tenant"),
        Err(e) => panic!("expected a domain validation error, got {e:?}"),
        Ok(_) => panic!("expected rejection"),
    }
}

#[test]
fn test_scenario_character_rejection() {
    let result = DefaultKey::new("key with spaces");
    assert!(matches!(
        result,
        Err(KeyParseError::InvalidCharacter { character: ' ', position: 3, .. })
    ));
}

#[test]
fn test_normalization_idempotent_concrete() {
    let once = SlugKey::new("  Gaming Laptop  ").unwrap();
    let twice = SlugKey::new(once.as_str()).unwrap();
    assert_eq!(twice.as_str(), once.as_str());

    let once = DefaultKey::new("  MiXeD.Case-Key  ").unwrap();
    let twice = DefaultKey::new(once.as_str()).unwrap();
    assert_eq!(twice.as_str(), once.as_str());
}

#[test]
fn test_round_trip_equality() {
    let key = BasicKey::new("Some_Key").unwrap();
    let again = BasicKey::new(key.as_str()).unwrap();
    assert_eq!(again.as_str(), key.as_str());
    assert_eq!(again.hash(), key.hash());
}

#[test]
fn test_cache_consistency() {
    let key = DefaultKey::new("cache.check-42").unwrap();
    assert_eq!(key.len(), key.as_str().chars().count());
    assert_eq!(key.hash(), compute_hash(key.as_str()));
}

#[test]
fn test_hash_equality_consistency() {
    let a = BasicKey::new("Same_Text").unwrap();
    let b = BasicKey::new("same_text").unwrap();
    assert_eq!(a.as_str(), b.as_str());
    assert_eq!(a.hash(), b.hash());
}

#[test]
fn test_empty_and_whitespace_rejection() {
    assert!(matches!(DefaultKey::new(""), Err(KeyParseError::Empty)));
    assert!(matches!(DefaultKey::new("   "), Err(KeyParseError::Empty)));
    assert!(matches!(BasicKey::new(""), Err(KeyParseError::Empty)));
    assert!(matches!(BasicKey::new("   "), Err(KeyParseError::Empty)));
    assert!(matches!(TenantKey::new("\t\n "), Err(KeyParseError::Empty)));
    assert!(matches!(Key::<PathDomain>::new("  "), Err(KeyParseError::Empty)));
}

#[test]
fn test_max_length_boundary() {
    let at_limit = "a".repeat(64);
    let key = DefaultKey::new(&at_limit).unwrap();
    assert_eq!(key.len(), 64);

    let over_limit = "a".repeat(65);
    assert!(matches!(
        DefaultKey::new(&over_limit),
        Err(KeyParseError::TooLong { max_length: 64, actual_length: 65 })
    ));
}

#[test]
fn test_ensure_prefix_idempotent() {
    let key = BasicKey::new("record").unwrap();
    let once = key.ensure_prefix("kind_").unwrap();
    let twice = once.ensure_prefix("kind_").unwrap();
    assert_eq!(once.as_str(), "kind_record");
    assert_eq!(twice.as_str(), once.as_str());
    assert_eq!(twice.hash(), once.hash());
}

#[test]
fn test_ensure_suffix_idempotent() {
    let key = BasicKey::new("record").unwrap();
    let once = key.ensure_suffix("_v2").unwrap();
    let twice = once.ensure_suffix("_v2").unwrap();
    assert_eq!(once.as_str(), "record_v2");
    assert_eq!(twice.as_str(), once.as_str());
}

#[test]
fn test_ensure_prefix_errors() {
    let key = DefaultKey::new("payload").unwrap();
    let too_long_prefix = "p".repeat(64);
    assert!(matches!(
        key.ensure_prefix(&too_long_prefix),
        Err(KeyParseError::TooLong { max_length: 64, .. })
    ));

    let bad = key.ensure_prefix("bad prefix ");
    assert!(matches!(
        bad,
        Err(KeyParseError::InvalidCharacter { character: ' ', position: 3, .. })
    ));
}

#[test]
fn test_structure_errors() {
    // Two identical separators in a row violate the adjacency rule.
    let doubled = DefaultKey::new("a__b");
    assert!(matches!(doubled, Err(KeyParseError::InvalidStructure { .. })));

    // A separator may not end a key.
    let trailing = DefaultKey::new("abc_");
    assert!(matches!(trailing, Err(KeyParseError::InvalidStructure { .. })));
}

#[test]
fn test_hash_function_distinguishes() {
    assert_eq!(compute_hash(""), 0);
    assert_ne!(compute_hash("a"), 0);
    assert_ne!(compute_hash("a"), compute_hash("b"));
    assert_eq!(compute_hash("abc"), compute_hash("abc"));
}

#[test]
fn test_unchecked_constructor_computes_caches() {
    let key = DefaultKey::from_static_unchecked("prebuilt_key");
    assert_eq!(key.as_str(), "prebuilt_key");
    assert_eq!(key.len(), 12);
    assert_eq!(key.hash(), compute_hash("prebuilt_key"));
}

#[test]
fn test_path_domain_validation_errors() {
    assert!(Key::<PathDomain>::new("users/profile/settings").is_ok());
    assert!(matches!(
        Key::<PathDomain>::new("users//profile"),
        Err(KeyParseError::InvalidStructure { .. })
    ));
}

#[test]
fn test_keys_in_hash_containers() {
    let mut set = std::collections::HashSet::new();
    set.insert(BasicKey::new("one_value").unwrap());
    set.insert(BasicKey::new("ONE_value").unwrap());
    set.insert(BasicKey::new("other_value").unwrap());
    assert_eq!(set.len(), 2);
}

#[test]
fn test_character_iteration() {
    let key = BasicKey::new("abc").unwrap();
    let chars: Vec<char> = key.chars().collect();
    assert_eq!(chars, vec!['a', 'b', 'c']);
}

#[test]
fn test_split_iterator_remaining() {
    let key = BasicKey::new("a_b_c").unwrap();
    let mut parts = key.split('_');
    assert_eq!(parts.remaining(), 3);
    assert_eq!(parts.next(), Some("a".to_string()));
    assert_eq!(parts.remaining(), 2);
}

#[test]
fn test_pipeline_order_borderline() {
    // Character and structure checks run on the pre-normalized text, so a
    // domain substitution may produce text that those checks themselves
    // would reject: the round trip holds only for texts the scan re-accepts.
    let key = Key::<domain_key::SampleDomain>::new("a-_b").unwrap();
    assert_eq!(key.as_str(), "a__b");
    assert!(matches!(
        Key::<domain_key::SampleDomain>::new(key.as_str()),
        Err(KeyParseError::InvalidStructure { .. })
    ));
}

#[test]
fn test_try_constructors() {
    assert!(BasicKey::try_new("fine_key").is_some());
    assert!(BasicKey::try_new("").is_none());
    assert!(BasicKey::try_from_parts(&["a", "b"], "_").is_some());
    assert!(BasicKey::try_from_parts(&["", ""], "_").is_none());
}
