//! The closed set of validation failures.
//!
//! Every failure carries structured fields, a stable numeric code and a
//! category, so callers can branch on errors programmatically.

use vstd::prelude::*;
use crate::text::{decimal_string, push_char, spec_decimal};

verus! {

/// A validation failure produced while building or deriving a key.
#[derive(Debug, Clone, PartialEq, Eq)]
pub enum KeyParseError {
    /// The input was empty or held only whitespace.
    Empty,
    /// A character the domain does not allow, with its scalar position.
    InvalidCharacter {
        /// The offending character.
        character: char,
        /// Scalar position of the character in the scanned text (0-based).
        position: usize,
        /// What kind of character was expected, if known.
        expected: Option<&'static str>,
    },
    /// The text is longer than the domain allows (also used when it falls
    /// short of the minimum, with the minimum in `max_length`).
    TooLong {
        /// The violated length bound.
        max_length: usize,
        /// The actual length of the text.
        actual_length: usize,
    },
    /// The text is shaped wrongly: a bad start or end character, or a
    /// forbidden pair of adjacent characters.
    InvalidStructure {
        /// Description of the structural problem.
        reason: &'static str,
    },
    /// The domain's own acceptance rule rejected the normalized text.
    DomainValidation {
        /// Name of the rejecting domain.
        domain: &'static str,
        /// The domain's explanation.
        message: String,
    },
    /// A caller-defined failure with its own code.
    Custom {
        /// Caller-supplied error code.
        code: u32,
        /// The caller's explanation.
        message: String,
    },
}

/// Coarse classification of validation failures.
#[derive(Debug, Clone, Copy, PartialEq, Eq, Hash, Structural)]
pub enum ErrorCategory {
    /// Empty input or a violated length bound.
    Length,
    /// A disallowed character.
    Character,
    /// A structural problem such as a bad start, end or adjacency.
    Structure,
    /// A rejection by the domain's own rule.
    Domain,
    /// A caller-defined failure.
    Custom,
}

/// Mathematical image of a [`KeyParseError`]: strings become character
/// sequences, positions and lengths become unbounded integers.  Contracts
/// throughout the crate speak of this type.
pub enum ErrorSpec {
    /// Image of [`KeyParseError::Empty`].
    Empty,
    /// Image of [`KeyParseError::InvalidCharacter`].
    InvalidCharacter { character: char, position: int, expected: Option<Seq<char>> },
    /// Image of [`KeyParseError::TooLong`].
    TooLong { max_length: int, actual_length: int },
    /// Image of [`KeyParseError::InvalidStructure`].
    InvalidStructure { reason: Seq<char> },
    /// Image of [`KeyParseError::DomainValidation`].
    DomainValidation { domain: Seq<char>, message: Seq<char> },
    /// Image of [`KeyParseError::Custom`].
    Custom { code: u32, message: Seq<char> },
}

impl View for KeyParseError {
    type V = ErrorSpec;

    open spec fn view(&self) -> ErrorSpec {
        match *self {
            KeyParseError::Empty => ErrorSpec::Empty,
            KeyParseError::InvalidCharacter { character, position, expected } =>
                ErrorSpec::InvalidCharacter {
                    character,
                    position: position as int,
                    expected: match expected {
                        Some(t) => Some(t@),
                        None => None,
                    },
                },
            KeyParseError::TooLong { max_length, actual_length } =>
                ErrorSpec::TooLong {
                    max_length: max_length as int,
                    actual_length: actual_length as int,
                },
            KeyParseError::InvalidStructure { reason } =>
                ErrorSpec::InvalidStructure { reason: reason@ },
            KeyParseError::DomainValidation { domain, message } =>
                ErrorSpec::DomainValidation { domain: domain@, message: message@ },
            KeyParseError::Custom { code, message } =>
                ErrorSpec::Custom { code, message: message@ },
        }
    }
}

/// The stable numeric code of an error.
pub open spec fn spec_code(e: KeyParseError) -> u32 {
    match e {
        KeyParseError::Empty => 1001,
        KeyParseError::InvalidCharacter { .. } => 1002,
        KeyParseError::TooLong { .. } => 1003,
        KeyParseError::InvalidStructure { .. } => 1004,
        KeyParseError::DomainValidation { .. } => 2000,
        KeyParseError::Custom { code, .. } => code,
    }
}

/// The category of an error.
pub open spec fn spec_category(e: KeyParseError) -> ErrorCategory {
    match e {
        KeyParseError::Empty => ErrorCategory::Length,
        KeyParseError::InvalidCharacter { .. } => ErrorCategory::Character,
        KeyParseError::TooLong { .. } => ErrorCategory::Length,
        KeyParseError::InvalidStructure { .. } => ErrorCategory::Structure,
        KeyParseError::DomainValidation { .. } => ErrorCategory::Domain,
        KeyParseError::Custom { .. } => ErrorCategory::Custom,
    }
}

/// The human-readable message of an error.
pub open spec fn spec_message(e: KeyParseError) -> Seq<char> {
    match e {
        KeyParseError::Empty => "Key cannot be empty or whitespace"@,
        KeyParseError::InvalidCharacter { character, position, .. } =>
            "Invalid character '"@ + seq![character] + "' at position "@
                + spec_decimal(position as int),
        KeyParseError::TooLong { max_length, actual_length } =>
            "Key is too long (max "@ + spec_decimal(max_length as int)
                + " characters, got "@ + spec_decimal(actual_length as int) + ")"@,
        KeyParseError::InvalidStructure { reason } =>
            "Key has invalid structure: "@ + reason@,
        KeyParseError::DomainValidation { domain, message } =>
            "Domain '"@ + domain@ + "' validation failed: "@ + message@,
        KeyParseError::Custom { code, message } =>
            "Custom validation error (code: "@ + spec_decimal(code as int) + "): "@
                + message@,
    }
}

/// Fixed suggestions offered for each failure kind.
pub open spec fn spec_suggestions(e: KeyParseError) -> Seq<Seq<char>> {
    match e {
        KeyParseError::Empty => seq![
            "Provide a non-empty key"@,
            "Remove leading/trailing whitespace"@,
        ],
        KeyParseError::InvalidCharacter { .. } => seq![
            "Use only allowed characters (check domain rules)"@,
            "Remove or replace invalid characters"@,
        ],
        KeyParseError::TooLong { .. } => seq![
            "Shorten the key to fit within length limits"@,
            "Consider using abbreviated forms"@,
        ],
        KeyParseError::InvalidStructure { .. } => seq![
            "Avoid consecutive special characters"@,
            "Don't start or end with special characters"@,
            "Follow the expected key format"@,
        ],
        KeyParseError::DomainValidation { .. } => seq![
            "Check domain-specific validation rules"@,
            "Refer to domain documentation"@,
        ],
        KeyParseError::Custom { .. } => seq![
            "Check application-specific validation rules"@,
            "Contact system administrator if needed"@,
        ],
    }
}

impl KeyParseError {
    /// Build a domain validation error for a named domain.
    pub fn domain_error(domain: &'static str, message: &str) -> (r: Self)
        ensures
            r matches KeyParseError::DomainValidation { domain: d, message: m }
                && d == domain && m@ == message@,
    {
        KeyParseError::DomainValidation { domain, message: message.to_owned() }
    }

    /// Build a domain validation error without naming the domain; the
    /// pipeline rewrites the name before handing the error on.
    pub fn domain_error_generic(message: &str) -> (r: Self)
        ensures
            r matches KeyParseError::DomainValidation { domain: d, message: m }
                && d@ == "unknown"@ && m@ == message@,
    {
        KeyParseError::DomainValidation { domain: "unknown", message: message.to_owned() }
    }

    /// Build a domain validation error that also records the rendered text of
    /// an underlying cause.
    pub fn domain_error_with_source(domain: &'static str, message: &str, source: &str) -> (r:
        Self)
        ensures
            r matches KeyParseError::DomainValidation { domain: d, message: m }
                && d == domain && m@ == message@ + ": "@ + source@,
    {
        let mut m = message.to_owned();
        m.append(": ");
        m.append(source);
        KeyParseError::DomainValidation { domain, message: m }
    }

    /// Build a custom error with a caller-chosen code.
    pub fn custom(code: u32, message: &str) -> (r: Self)
        ensures
            r matches KeyParseError::Custom { code: c, message: m }
                && c == code && m@ == message@,
    {
        KeyParseError::Custom { code, message: message.to_owned() }
    }

    /// Build a custom error that also records the rendered text of an
    /// underlying cause.
    pub fn custom_with_source(code: u32, message: &str, source: &str) -> (r: Self)
        ensures
            r matches KeyParseError::Custom { code: c, message: m }
                && c == code && m@ == message@ + ": "@ + source@,
    {
        let mut m = message.to_owned();
        m.append(": ");
        m.append(source);
        KeyParseError::Custom { code, message: m }
    }

    /// The stable numeric code of this error.
    pub fn code(&self) -> (r: u32)
        ensures
            r == spec_code(*self),
    {
        match self {
            KeyParseError::Empty => 1001,
            KeyParseError::InvalidCharacter { .. } => 1002,
            KeyParseError::TooLong { .. } => 1003,
            KeyParseError::InvalidStructure { .. } => 1004,
            KeyParseError::DomainValidation { .. } => 2000,
            KeyParseError::Custom { code, .. } => *code,
        }
    }

    /// The category of this error.
    pub fn category(&self) -> (r: ErrorCategory)
        ensures
            r == spec_category(*self),
    {
        match self {
            KeyParseError::Empty => ErrorCategory::Length,
            KeyParseError::InvalidCharacter { .. } => ErrorCategory::Character,
            KeyParseError::TooLong { .. } => ErrorCategory::Length,
            KeyParseError::InvalidStructure { .. } => ErrorCategory::Structure,
            KeyParseError::DomainValidation { .. } => ErrorCategory::Domain,
            KeyParseError::Custom { .. } => ErrorCategory::Custom,
        }
    }

    /// The human-readable message for this error.
    pub fn message(&self) -> (r: String)
        ensures
            r@ == spec_message(*self),
    {
        match self {
            KeyParseError::Empty => "Key cannot be empty or whitespace".to_owned(),
            KeyParseError::InvalidCharacter { character, position, .. } => {
                let mut out = "Invalid character '".to_owned();
                push_char(&mut out, *character);
                out.append("' at position ");
                let num = decimal_string(*position as u64);
                out.append(num.as_str());
                proof {
                    assert(out@ =~= spec_message(*self));
                }
                out
            },
            KeyParseError::TooLong { max_length, actual_length } => {
                let mut out = "Key is too long (max ".to_owned();
                let num = decimal_string(*max_length as u64);
                out.append(num.as_str());
                out.append(" characters, got ");
                let num2 = decimal_string(*actual_length as u64);
                out.append(num2.as_str());
                out.append(")");
                proof {
                    assert(out@ =~= spec_message(*self));
                }
                out
            },
            KeyParseError::InvalidStructure { reason } => {
                let mut out = "Key has invalid structure: ".to_owned();
                out.append(reason);
                proof {
                    assert(out@ =~= spec_message(*self));
                }
                out
            },
            KeyParseError::DomainValidation { domain, message } => {
                let mut out = "Domain '".to_owned();
                out.append(domain);
                out.append("' validation failed: ");
                out.append(message.as_str());
                proof {
                    assert(out@ =~= spec_message(*self));
                }
                out
            },
            KeyParseError::Custom { code, message } => {
                let mut out = "Custom validation error (code: ".to_owned();
                let num = decimal_string(*code as u64);
                out.append(num.as_str());
                out.append("): ");
                out.append(message.as_str());
                proof {
                    assert(out@ =~= spec_message(*self));
                }
                out
            },
        }
    }

    /// A fixed description of what went wrong.
    pub fn description(&self) -> (r: &'static str)
        ensures
            r@ == spec_description(*self),
    {
        match self {
            KeyParseError::Empty => "Key cannot be empty or contain only whitespace characters",
            KeyParseError::InvalidCharacter { .. } =>
                "Key contains characters that are not allowed by the domain",
            KeyParseError::TooLong { .. } =>
                "Key exceeds the maximum length allowed by the domain",
            KeyParseError::InvalidStructure { .. } => "Key has invalid structure or formatting",
            KeyParseError::DomainValidation { .. } =>
                "Key fails domain-specific validation rules",
            KeyParseError::Custom { .. } => "Key fails custom validation rules",
        }
    }

    /// Suggested ways to repair the input.
    pub fn suggestions(&self) -> (r: Vec<&'static str>)
        ensures
            r@.len() == spec_suggestions(*self).len(),
            forall|i: int| 0 <= i < r@.len() ==> r@[i]@ == spec_suggestions(*self)[i],
    {
        let mut v: Vec<&'static str> = Vec::new();
        match self {
            KeyParseError::Empty => {
                v.push("Provide a non-empty key");
                v.push("Remove leading/trailing whitespace");
            },
            KeyParseError::InvalidCharacter { .. } => {
                v.push("Use only allowed characters (check domain rules)");
                v.push("Remove or replace invalid characters");
            },
            KeyParseError::TooLong { .. } => {
                v.push("Shorten the key to fit within length limits");
                v.push("Consider using abbreviated forms");
            },
            KeyParseError::InvalidStructure { .. } => {
                v.push("Avoid consecutive special characters");
                v.push("Don't start or end with special characters");
                v.push("Follow the expected key format");
            },
            KeyParseError::DomainValidation { .. } => {
                v.push("Check domain-specific validation rules");
                v.push("Refer to domain documentation");
            },
            KeyParseError::Custom { .. } => {
                v.push("Check application-specific validation rules");
                v.push("Contact system administrator if needed");
            },
        }
        v
    }

    /// Whether the user can repair the failure by changing the input.
    pub fn is_recoverable(&self) -> (r: bool)
        ensures
            r == !(*self matches KeyParseError::Custom { .. }),
    {
        match self {
            KeyParseError::Custom { .. } => false,
            _ => true,
        }
    }
}

/// The fixed description of an error kind.
pub open spec fn spec_description(e: KeyParseError) -> Seq<char> {
    match e {
        KeyParseError::Empty => "Key cannot be empty or contain only whitespace characters"@,
        KeyParseError::InvalidCharacter { .. } =>
            "Key contains characters that are not allowed by the domain"@,
        KeyParseError::TooLong { .. } =>
            "Key exceeds the maximum length allowed by the domain"@,
        KeyParseError::InvalidStructure { .. } => "Key has invalid structure or formatting"@,
        KeyParseError::DomainValidation { .. } =>
            "Key fails domain-specific validation rules"@,
        KeyParseError::Custom { .. } => "Key fails custom validation rules"@,
    }
}

impl ErrorCategory {
    /// The short name of the category.
    pub fn name(self) -> (r: &'static str)
        ensures
            r@ == spec_category_name(self),
    {
        match self {
            ErrorCategory::Length => "Length",
            ErrorCategory::Character => "Character",
            ErrorCategory::Structure => "Structure",
            ErrorCategory::Domain => "Domain",
            ErrorCategory::Custom => "Custom",
        }
    }

    /// What this category covers.
    pub fn description(self) -> (r: &'static str)
        ensures
            r@ == spec_category_description(self),
    {
        match self {
            ErrorCategory::Length => "Errors related to key length (empty, too long, etc.)",
            ErrorCategory::Character => "Errors related to invalid characters in the key",
            ErrorCategory::Structure => "Errors related to key structure and formatting",
            ErrorCategory::Domain => "Errors from domain-specific validation rules",
            ErrorCategory::Custom => "Custom application-specific validation errors",
        }
    }
}

/// The short name of a category.
pub open spec fn spec_category_name(c: ErrorCategory) -> Seq<char> {
    match c {
        ErrorCategory::Length => "Length"@,
        ErrorCategory::Character => "Character"@,
        ErrorCategory::Structure => "Structure"@,
        ErrorCategory::Domain => "Domain"@,
        ErrorCategory::Custom => "Custom"@,
    }
}

/// The description of a category.
pub open spec fn spec_category_description(c: ErrorCategory) -> Seq<char> {
    match c {
        ErrorCategory::Length => "Errors related to key length (empty, too long, etc.)"@,
        ErrorCategory::Character => "Errors related to invalid characters in the key"@,
        ErrorCategory::Structure => "Errors related to key structure and formatting"@,
        ErrorCategory::Domain => "Errors from domain-specific validation rules"@,
        ErrorCategory::Custom => "Custom application-specific validation errors"@,
    }
}

// ---------------------------------------------------------------------------
// Error builder
// ---------------------------------------------------------------------------

/// Fluent builder for validation errors with context and suggestions.
#[derive(Debug)]
pub struct ErrorBuilder {
    /// The category the error is built for.
    pub category: ErrorCategory,
    /// Caller-chosen code; without one the builder produces a domain
    /// validation error.
    pub code: Option<u32>,
    /// The error message.
    pub message: String,
    /// Collected suggestions.
    pub suggestions: Vec<&'static str>,
    /// Extra context appended to the message.
    pub context: Option<String>,
}

/// The message a builder's error will carry: the message, with the context
/// appended in parentheses when one was given.
pub open spec fn spec_built_message(b: ErrorBuilder) -> Seq<char> {
    match b.context {
        Some(ctx) => b.message@ + " (Context: "@ + ctx@ + ")"@,
        None => b.message@,
    }
}

impl ErrorBuilder {
    /// Start a builder for the given category.
    pub fn new(category: ErrorCategory) -> (r: Self)
        ensures
            r.category == category,
            r.code is None,
            r.message@ == Seq::<char>::empty(),
            r.suggestions@.len() == 0,
            r.context is None,
    {
        ErrorBuilder {
            category,
            code: None,
            message: String::new(),
            suggestions: Vec::new(),
            context: None,
        }
    }

    /// Set the error message.
    pub fn message(self, message: &str) -> (r: Self)
        ensures
            r.message@ == message@,
            r.category == self.category,
            r.code == self.code,
            r.suggestions == self.suggestions,
            r.context == self.context,
    {
        ErrorBuilder { message: message.to_owned(), ..self }
    }

    /// Choose a custom error code.
    pub fn code(self, code: u32) -> (r: Self)
        ensures
            r.code == Some(code),
            r.category == self.category,
            r.message == self.message,
            r.suggestions == self.suggestions,
            r.context == self.context,
    {
        ErrorBuilder { code: Some(code), ..self }
    }

    /// Add one suggestion.
    pub fn suggestion(self, suggestion: &'static str) -> (r: Self)
        ensures
            r.suggestions@ == self.suggestions@.push(suggestion),
            r.category == self.category,
            r.code == self.code,
            r.message == self.message,
            r.context == self.context,
    {
        let mut s = self;
        s.suggestions.push(suggestion);
        s
    }

    /// Add several suggestions.
    pub fn suggestions(self, suggestions: &[&'static str]) -> (r: Self)
        ensures
            r.suggestions@ == self.suggestions@ + suggestions@,
            r.category == self.category,
            r.code == self.code,
            r.message == self.message,
            r.context == self.context,
    {
        let mut s = self;
        s.suggestions.extend_from_slice(suggestions);
        s
    }

    /// Record extra context for the message.
    pub fn context(self, context: &str) -> (r: Self)
        ensures
            r.context matches Some(c) && c@ == context@,
            r.category == self.category,
            r.code == self.code,
            r.message == self.message,
            r.suggestions == self.suggestions,
    {
        ErrorBuilder { context: Some(context.to_owned()), ..self }
    }

    /// Build the error: a custom error when a code was chosen, otherwise a
    /// domain validation error without a domain name.
    pub fn build(self) -> (r: KeyParseError)
        ensures
            r@ == (match self.code {
                Some(c) => ErrorSpec::Custom { code: c, message: spec_built_message(self) },
                None => ErrorSpec::DomainValidation {
                    domain: "unknown"@,
                    message: spec_built_message(self),
                },
            }),
    {
        let message = match self.context {
            Some(ctx) => {
                let mut m = self.message;
                m.append(" (Context: ");
                m.append(ctx.as_str());
                m.append(")");
                m
            },
            None => self.message,
        };
        match self.code {
            Some(code) => KeyParseError::Custom { code, message },
            None => KeyParseError::DomainValidation { domain: "unknown", message },
        }
    }
}

// ---------------------------------------------------------------------------
// Convenience constructors
// ---------------------------------------------------------------------------

/// Build an invalid-character error.
pub fn invalid_character(character: char, position: usize, expected: Option<&'static str>) -> (r:
    KeyParseError)
    ensures
        r == (KeyParseError::InvalidCharacter { character, position, expected }),
{
    KeyParseError::InvalidCharacter { character, position, expected }
}

/// Build a too-long error.
pub fn too_long(max_length: usize, actual_length: usize) -> (r: KeyParseError)
    ensures
        r == (KeyParseError::TooLong { max_length, actual_length }),
{
    KeyParseError::TooLong { max_length, actual_length }
}

/// Build an invalid-structure error.
pub fn invalid_structure(reason: &'static str) -> (r: KeyParseError)
    ensures
        r == (KeyParseError::InvalidStructure { reason }),
{
    KeyParseError::InvalidStructure { reason }
}

/// Build a domain validation error.
pub fn domain_validation(domain: &'static str, message: &str) -> (r: KeyParseError)
    ensures
        r@ == (ErrorSpec::DomainValidation { domain: domain@, message: message@ }),
{
    KeyParseError::domain_error(domain, message)
}

// ---------------------------------------------------------------------------
// Rendering
// ---------------------------------------------------------------------------

/// The bullet lines of the user-facing rendering, one per suggestion.
pub open spec fn spec_suggestion_lines(sugg: Seq<Seq<char>>) -> Seq<char>
    decreases sugg.len(),
{
    if sugg.len() == 0 {
        Seq::empty()
    } else {
        "\n  ‚Ä¢ "@ + sugg[0] + spec_suggestion_lines(sugg.drop_first())
    }
}

/// One more suggestion appends one more bullet line.
proof fn lemma_suggestion_lines_step(sugg: Seq<Seq<char>>, k: int)
    requires
        0 <= k < sugg.len(),
    ensures
        spec_suggestion_lines(sugg.take(k + 1)) == spec_suggestion_lines(sugg.take(k))
            + "\n  ‚Ä¢ "@ + sugg[k],
    decreases k,
{
    if k == 0 {
        assert(sugg.take(1).drop_first() =~= Seq::<Seq<char>>::empty());
        assert(sugg.take(0) =~= Seq::<Seq<char>>::empty());
        assert(spec_suggestion_lines(sugg.take(1))
            =~= spec_suggestion_lines(sugg.take(0)) + "\n  ‚Ä¢ "@ + sugg[0]);
    } else {
        lemma_suggestion_lines_step(sugg.drop_first(), k - 1);
        assert(sugg.take(k + 1).drop_first() =~= sugg.drop_first().take(k));
        assert(sugg.take(k).drop_first() =~= sugg.drop_first().take(k - 1));
        assert(spec_suggestion_lines(sugg.take(k + 1))
            =~= spec_suggestion_lines(sugg.take(k)) + "\n  ‚Ä¢ "@ + sugg[k]);
    }
}

/// The user-facing rendering of an error: the message, followed by the
/// suggestions as bullet lines when there are any.
pub open spec fn spec_user_error(e: KeyParseError) -> Seq<char> {
    if spec_suggestions(e).len() > 0 {
        "‚ùå "@ + spec_message(e) + "\n\nüí° Suggestions:"@
            + spec_suggestion_lines(spec_suggestions(e))
    } else {
        "‚ùå "@ + spec_message(e)
    }
}

/// Render an error for end users, message first, suggestions after.
pub fn format_user_error(error: &KeyParseError) -> (r: String)
    ensures
        r@ == spec_user_error(*error),
{
    let ghost gs = spec_suggestions(*error);
    let mut out = "‚ùå ".to_owned();
    let msg = error.message();
    out.append(msg.as_str());
    let sugg = error.suggestions();
    if sugg.len() > 0 {
        out.append("\n\nüí° Suggestions:");
        let ghost base = out@;
        let mut i: usize = 0;
        proof {
            assert(gs.take(0) =~= Seq::<Seq<char>>::empty());
        }
        while i < sugg.len()
            invariant
                gs == spec_suggestions(*error),
                sugg@.len() == gs.len(),
                forall|j: int| 0 <= j < sugg@.len() ==> sugg@[j]@ == gs[j],
                i <= sugg@.len(),
                out@ == base + spec_suggestion_lines(gs.take(i as int)),
            decreases sugg@.len() - i,
        {
            out.append("\n  ‚Ä¢ ");
            out.append(sugg[i]);
            proof {
                lemma_suggestion_lines_step(gs, i as int);
            }
            i = i + 1;
        }
        proof {
            assert(gs.take(gs.len() as int) =~= gs);
        }
    }
    out
}

/// The log-oriented rendering of an error: code, category, message and
/// description.
pub open spec fn spec_debug_error(e: KeyParseError) -> Seq<char> {
    "["@ + spec_decimal(spec_code(e) as int) + ":"@ + spec_category_name(spec_category(e))
        + "] "@ + spec_message(e) + " (Category: "@ + spec_description(e) + ")"@
}

/// Render an error for logs and debugging.
pub fn format_debug_error(error: &KeyParseError) -> (r: String)
    ensures
        r@ == spec_debug_error(*error),
{
    let mut out = "[".to_owned();
    let code = decimal_string(error.code() as u64);
    out.append(code.as_str());
    out.append(":");
    out.append(error.category().name());
    out.append("] ");
    let msg = error.message();
    out.append(msg.as_str());
    out.append(" (Category: ");
    out.append(error.description());
    out.append(")");
    out
}

} // verus!
