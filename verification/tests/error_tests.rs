use domain_key::error::{
    domain_validation, format_debug_error, format_user_error, invalid_character,
    invalid_structure, too_long, ErrorBuilder, ErrorCategory, KeyParseError,
};

#[test]
fn test_error_codes() {
    assert_eq!(KeyParseError::Empty.code(), 1001);
    assert_eq!(
        KeyParseError::InvalidCharacter { character: 'x', position: 0, expected: None }.code(),
        1002
    );
    assert_eq!(KeyParseError::TooLong { max_length: 10, actual_length: 20 }.code(), 1003);
    assert_eq!(KeyParseError::InvalidStructure { reason: "test" }.code(), 1004);
    assert_eq!(
        KeyParseError::DomainValidation { domain: "test", message: "msg".to_string() }.code(),
        2000
    );
    assert_eq!(KeyParseError::Custom { code: 42, message: "msg".to_string() }.code(), 42);
}

#[test]
fn test_error_categories() {
    assert_eq!(KeyParseError::Empty.category(), ErrorCategory::Length);
    assert_eq!(
        KeyParseError::InvalidCharacter { character: 'x', position: 0, expected: None }
            .category(),
        ErrorCategory::Character
    );
    assert_eq!(
        KeyParseError::TooLong { max_length: 10, actual_length: 20 }.category(),
        ErrorCategory::Length
    );
    assert_eq!(
        KeyParseError::InvalidStructure { reason: "test" }.category(),
        ErrorCategory::Structure
    );
    assert_eq!(
        KeyParseError::DomainValidation { domain: "test", message: "msg".to_string() }
            .category(),
        ErrorCategory::Domain
    );
    assert_eq!(
        KeyParseError::Custom { code: 42, message: "msg".to_string() }.category(),
        ErrorCategory::Custom
    );
}

#[test]
fn test_error_suggestions() {
    let error = KeyParseError::Empty;
    let suggestions = error.suggestions();
    assert!(!suggestions.is_empty());
    assert!(suggestions.iter().any(|s| s.contains("non-empty")));
}

#[test]
fn test_error_builder() {
    let error = ErrorBuilder::new(ErrorCategory::Custom)
        .message("Test error")
        .code(1234)
        .suggestion("Try something else")
        .context("In test function")
        .build();

    assert_eq!(error.code(), 1234);
    assert_eq!(error.category(), ErrorCategory::Custom);
}

#[test]
fn test_convenience_functions() {
    let error1 = invalid_character('!', 5, Some("alphanumeric"));
    assert!(matches!(
        error1,
        KeyParseError::InvalidCharacter { character: '!', position: 5, .. }
    ));

    let error2 = too_long(32, 64);
    assert!(matches!(error2, KeyParseError::TooLong { max_length: 32, actual_length: 64 }));

    let error3 = invalid_structure("consecutive underscores");
    assert!(matches!(
        error3,
        KeyParseError::InvalidStructure { reason: "consecutive underscores" }
    ));

    let error4 = domain_validation("test", "Invalid format");
    assert!(matches!(error4, KeyParseError::DomainValidation { domain: "test", .. }));
}

#[test]
fn test_error_formatting() {
    let error = KeyParseError::Empty;
    let user_format = format_user_error(&error);
    let debug_format = format_debug_error(&error);

    assert!(user_format.contains("‚ùå"));
    assert!(user_format.contains("üí°"));
    assert!(debug_format.contains("1001"));
    assert!(debug_format.contains("Length"));
}

#[test]
fn test_error_recoverability() {
    assert!(KeyParseError::Empty.is_recoverable());
    assert!(
        KeyParseError::InvalidCharacter { character: 'x', position: 0, expected: None }
            .is_recoverable()
    );
    assert!(!KeyParseError::Custom { code: 42, message: "msg".to_string() }.is_recoverable());
}

#[test]
fn test_category_display() {
    assert_eq!(ErrorCategory::Length.name(), "Length");
    assert_eq!(ErrorCategory::Character.name(), "Character");
    assert!(ErrorCategory::Domain.description().contains("domain-specific"));
}
