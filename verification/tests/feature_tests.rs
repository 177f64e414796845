use domain_key::features::{
    analyze_current_configuration, build_info, configuration_summary, detect_arch_category,
    estimated_benchmark_results, feature_recommendations, has_crypto_hash, has_fast_hash,
    has_hash_caching, has_length_caching, has_secure_hash, has_serde, has_simd_support,
    has_stack_optimization, has_std, hash_algorithm, hash_category, is_balanced_configuration,
    is_performance_optimized, is_security_optimized, memory_profile,
};

#[test]
fn test_feature_detection() {
    println!("Has std: {}", has_std());
    println!("Has serde: {}", has_serde());
    println!("Hash algorithm: {}", hash_algorithm());
    println!("Hash category: {}", hash_category().name());

    assert!(!hash_algorithm().is_empty());
}

#[test]
fn test_memory_profile() {
    let profile = memory_profile();
    assert!(profile.stack_optimized);
    assert!(profile.length_cached);
    assert!(profile.hash_cached);
    assert!(profile.overhead_per_key > 0);
}

#[test]
fn test_benchmark_estimates() {
    let results = estimated_benchmark_results();
    assert!(results.creation_ns > 0);
    assert!(results.hash_ns > 0);
    assert!(results.length_ns > 0);
    assert!(results.comparison_ns > 0);
    assert!(results.memory_bytes > 0);
}

#[test]
fn test_feature_recommendations() {
    let recs = feature_recommendations();
    assert!(!recs.performance.is_empty());
    assert!(!recs.security.is_empty());
    assert!(!recs.balanced.is_empty());
}

#[test]
fn test_configuration_analysis() {
    let analysis = analyze_current_configuration();
    assert!(analysis.overall_score <= 100);

    let display = analysis.display_string();
    assert!(display.contains("Configuration Analysis"));
}

#[test]
fn test_diagnostics() {
    let summary = configuration_summary();
    assert!(summary.contains("domain-key"));
    assert!(summary.contains("hash"));
}

#[test]
fn test_optimization_detection() {
    assert!(has_length_caching());
    assert!(has_hash_caching());
    assert!(has_stack_optimization());

    println!("SIMD support: {}", has_simd_support());
    println!("Security optimized: {}", is_security_optimized());
    println!("Performance optimized: {}", is_performance_optimized());
    println!("Balanced: {}", is_balanced_configuration());
}

#[test]
fn test_arch_detection() {
    let arch = detect_arch_category();
    println!("Detected architecture: {}", arch.name());
}

#[test]
fn test_hash_categories() {
    let category = hash_category();
    println!("Hash category: {}", category.name());

    assert!(!category.name().is_empty());
}

#[test]
fn test_hash_configuration_flags() {
    assert!(!has_fast_hash());
    assert!(!has_secure_hash());
    assert!(has_crypto_hash());
    assert!(is_security_optimized());
    assert!(!is_balanced_configuration());
    let info = build_info();
    assert!(!info.is_release);
}
