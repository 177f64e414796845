use domain_key::domain::{
    domain_info, domains_compatible, DefaultDomain, IdentifierDomain, KeyDomain, LongDomain,
    MacroTestDomain, PathDomain,
};
use domain_key::DEFAULT_MAX_KEY_LENGTH;

#[test]
fn domain_test_default_domain() {
    let info = domain_info::<DefaultDomain>();
    assert_eq!(info.name, "default");
    assert_eq!(info.max_length, 64);
    assert!(info.case_insensitive);
    assert!(!info.has_custom_validation);
}

#[test]
fn test_identifier_domain() {
    let info = domain_info::<IdentifierDomain>();
    assert_eq!(info.name, "identifier");
    assert!(!info.case_insensitive);
    assert!(info.has_custom_validation);

    assert!(IdentifierDomain::allowed_characters('a'));
    assert!(IdentifierDomain::allowed_characters('_'));
    assert!(!IdentifierDomain::allowed_characters('-'));

    assert!(IdentifierDomain::allowed_start_character('a'));
    assert!(IdentifierDomain::allowed_start_character('_'));
    assert!(!IdentifierDomain::allowed_start_character('1'));
}

#[test]
fn test_path_domain() {
    let info = domain_info::<PathDomain>();
    assert_eq!(info.name, "path");
    assert_eq!(info.default_separator, '/');
    assert!(info.frequently_split);
    assert!(info.has_custom_validation);

    assert!(PathDomain::allowed_characters('/'));
    assert!(!PathDomain::allowed_start_character('/'));
    assert!(!PathDomain::allowed_end_character('/'));
    assert!(!PathDomain::allowed_consecutive_characters('/', '/'));
}

#[test]
fn test_domain_info_display() {
    let info = domain_info::<DefaultDomain>();
    let display = info.display_string();
    assert!(display.contains("Domain: default"));
    assert!(display.contains("Length: 1-64"));
    assert!(display.contains("Case insensitive: true"));
}

#[test]
fn test_domains_compatible() {
    assert!(domains_compatible::<DefaultDomain, DefaultDomain>());
    assert!(!domains_compatible::<DefaultDomain, IdentifierDomain>());
    assert!(!domains_compatible::<IdentifierDomain, PathDomain>());
}

#[test]
fn test_validation_methods() {
    assert!(DefaultDomain::allowed_characters('a'));
    assert!(!DefaultDomain::is_reserved_prefix("test"));
    assert!(!DefaultDomain::is_reserved_suffix("test"));
    assert!(!DefaultDomain::requires_ascii_only("test"));
    assert_eq!(DefaultDomain::min_length(), 1);

    assert!(DefaultDomain::validation_help().is_some());
    assert!(!DefaultDomain::examples().is_empty());
}

#[test]
fn test_normalization() {
    let output = DefaultDomain::normalize_domain("test");
    assert_eq!(output, "test");

    let owned_input = "test".to_string();
    let output = DefaultDomain::normalize_domain(owned_input.as_str());
    assert_eq!(output, "test");
}

#[test]
fn test_define_domain_macro() {
    assert_eq!(MacroTestDomain::DOMAIN_NAME, "macro_test");
    assert_eq!(MacroTestDomain::MAX_LENGTH, DEFAULT_MAX_KEY_LENGTH);

    assert_eq!(LongDomain::DOMAIN_NAME, "long");
    assert_eq!(LongDomain::MAX_LENGTH, 256);
}
