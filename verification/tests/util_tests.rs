use domain_key::chars::{
    is_ascii_alphanumeric_fast, is_key_char_fast, is_separator, is_whitespace_fast,
};
use domain_key::text::{count_char, find_nth_char, is_ascii_only, join_optimized,
    normalize_string};
use domain_key::utils::{
    add_prefix_optimized, add_suffix_optimized, basic_key_chars, char_in_set, optimal_capacity,
    parts_to_string, replace_chars, smart_string_to_string, str_to_smart_string,
    string_memory_usage, PositionCache, ASCII_ALPHANUMERIC, SEPARATORS,
};

#[test]
fn test_add_prefix_suffix() {
    let result = add_prefix_optimized("test", "prefix_", 100);
    assert_eq!(result, "prefix_test");

    let result = add_suffix_optimized("test", "_suffix", 100);
    assert_eq!(result, "test_suffix");
}

#[test]
fn test_join_optimized() {
    let parts = vec!["a", "b", "c"];
    let result = join_optimized(&parts, "_");
    assert_eq!(result, "a_b_c");

    let empty: Vec<&str> = vec![];
    let result = join_optimized(&empty, "_");
    assert_eq!(result, "");

    let single = vec!["alone"];
    let result = join_optimized(&single, "_");
    assert_eq!(result, "alone");
}

#[test]
fn test_char_validation() {
    assert!(is_ascii_alphanumeric_fast('a'));
    assert!(is_ascii_alphanumeric_fast('Z'));
    assert!(is_ascii_alphanumeric_fast('5'));
    assert!(!is_ascii_alphanumeric_fast('_'));
    assert!(!is_ascii_alphanumeric_fast('ñ'));

    assert!(is_key_char_fast('a'));
    assert!(is_key_char_fast('_'));
    assert!(is_key_char_fast('-'));
    assert!(is_key_char_fast('.'));
    assert!(!is_key_char_fast(' '));

    assert!(is_separator('_'));
    assert!(is_separator('/'));
    assert!(!is_separator('a'));

    assert!(is_whitespace_fast(' '));
    assert!(is_whitespace_fast('\t'));
    assert!(!is_whitespace_fast('a'));
}

#[test]
fn test_string_utilities() {
    assert!(is_ascii_only("hello"));
    assert!(!is_ascii_only("héllo"));

    assert_eq!(count_char("hello_world_test", '_'), 2);
    assert_eq!(count_char("no_underscores", '_'), 1);

    assert_eq!(find_nth_char("a_b_c_d", '_', 0), Some(1));
    assert_eq!(find_nth_char("a_b_c_d", '_', 1), Some(3));
    assert_eq!(find_nth_char("a_b_c_d", '_', 2), Some(5));
    assert_eq!(find_nth_char("a_b_c_d", '_', 3), None);
}

#[test]
fn test_normalize_string() {
    let result = normalize_string("  Hello  ", true);
    assert_eq!(result, "hello");

    let result = normalize_string("hello", true);
    assert_eq!(result, "hello");

    let result = normalize_string("  hello  ", false);
    assert_eq!(result, "hello");

    let result = normalize_string("hello", false);
    assert_eq!(result, "hello");
}

#[test]
fn test_position_cache() {
    let cache = PositionCache::new("a_b_c_d", '_');
    assert_eq!(cache.positions(), &[1, 3, 5]);
    assert_eq!(cache.part_count(), 4);

    assert_eq!(cache.get_part(0), Some("a"));
    assert_eq!(cache.get_part(1), Some("b"));
    assert_eq!(cache.get_part(2), Some("c"));
    assert_eq!(cache.get_part(3), Some("d"));
    assert_eq!(cache.get_part(4), None);

    assert!(cache.is_valid_for("a_b_c_d", '_'));
    assert!(!cache.is_valid_for("a_b_c_d", '-'));
    assert!(!cache.is_valid_for("different", '_'));
}

#[test]
fn test_memory_utilities() {
    let s = "hello";
    let usage = string_memory_usage(s);
    assert!(usage >= s.len());

    let capacity = optimal_capacity(10, 5);
    assert!(capacity >= 15);
    assert!(capacity.is_power_of_two() || capacity == 32);
}

#[test]
fn test_convert_utilities() {
    let smart = str_to_smart_string("hello");
    let regular = smart_string_to_string(smart);
    assert_eq!(regular, "hello");

    let parts = vec!["a", "b", "c"];
    let joined = parts_to_string(&parts, "_");
    assert_eq!(joined, "a_b_c");
}

#[test]
fn test_char_sets() {
    assert!(char_in_set('a', ASCII_ALPHANUMERIC));
    assert!(char_in_set('5', ASCII_ALPHANUMERIC));
    assert!(!char_in_set('_', ASCII_ALPHANUMERIC));

    assert!(char_in_set('_', SEPARATORS));
    assert!(char_in_set('-', SEPARATORS));
    assert!(!char_in_set('a', SEPARATORS));

    let basic_chars = basic_key_chars();
    assert!(basic_chars.contains('a'));
    assert!(basic_chars.contains('_'));
    assert!(basic_chars.contains('.'));
}

#[test]
fn test_replace_chars() {
    let result = replace_chars("hello-world", |c| if c == '-' { Some('_') } else { None });
    assert_eq!(result, "hello_world");

    let result = replace_chars("hello_world", |c| if c == '-' { Some('_') } else { None });
    assert_eq!(result, "hello_world");
}
