//! Reporting on the library's build configuration.
//!
//! This build is fixed: standard-library support is on, the hash capability
//! is the cryptographic 64-bit digest prefix, serialization lives outside
//! the core, and no architecture-specific code paths are compiled in.  The
//! functions here describe that configuration as plain values.

use vstd::prelude::*;
use crate::text::{bool_text, decimal_string, spec_bool_text, spec_decimal};

verus! {

/// Whether standard-library support is enabled.
pub fn has_std() -> (r: bool)
    ensures
        r,
{
    true
}

/// Whether serialization support is part of the core library.
pub fn has_serde() -> (r: bool)
    ensures
        !r,
{
    false
}

/// Whether the throughput-first hash configuration is active.
pub fn has_fast_hash() -> (r: bool)
    ensures
        !r,
{
    false
}

/// Whether the DoS-resistant hash configuration is active.
pub fn has_secure_hash() -> (r: bool)
    ensures
        !r,
{
    false
}

/// Whether the cryptographic hash configuration is active.
pub fn has_crypto_hash() -> (r: bool)
    ensures
        r,
{
    true
}

/// The name of the active hash algorithm.
pub fn hash_algorithm() -> (r: &'static str)
    ensures
        r@ == "Blake3"@,
{
    "Blake3"
}

/// Hash algorithm families, by their performance and security trade-off.
#[derive(Debug, Clone, Copy, PartialEq, Eq, Structural)]
pub enum HashCategory {
    /// Throughput-first hashing.
    UltraFast,
    /// Balanced performance with DoS resistance.
    Secure,
    /// Cryptographically secure hashing.
    Cryptographic,
    /// The standard library's default hasher.
    Standard,
    /// A simple fallback hash.
    Simple,
}

/// The short name of a hash category.
pub open spec fn spec_hash_category_name(c: HashCategory) -> Seq<char> {
    match c {
        HashCategory::UltraFast => "ultra-fast"@,
        HashCategory::Secure => "secure"@,
        HashCategory::Cryptographic => "cryptographic"@,
        HashCategory::Standard => "standard"@,
        HashCategory::Simple => "simple"@,
    }
}

impl HashCategory {
    /// The short name of the category.
    pub fn name(self) -> (r: &'static str)
        ensures
            r@ == spec_hash_category_name(self),
    {
        match self {
            HashCategory::UltraFast => "ultra-fast",
            HashCategory::Secure => "secure",
            HashCategory::Cryptographic => "cryptographic",
            HashCategory::Standard => "standard",
            HashCategory::Simple => "simple",
        }
    }
}

/// The category of the active hash algorithm.
pub fn hash_category() -> (r: HashCategory)
    ensures
        r == HashCategory::Cryptographic,
{
    HashCategory::Cryptographic
}

/// Memory characteristics of the key representation.
#[derive(Debug, Clone, Copy, PartialEq, Eq, Structural)]
pub struct MemoryProfile {
    /// Whether short keys are stored inline on the stack.
    pub stack_optimized: bool,
    /// Whether the length cache is present.
    pub length_cached: bool,
    /// Whether the hash cache is present.
    pub hash_cached: bool,
    /// Cache overhead per key in bytes: eight for the hash, four for the
    /// length.
    pub overhead_per_key: usize,
}

/// The memory profile of this build: inline storage for short keys, both
/// caches present, twelve bytes of cache per key.
pub fn memory_profile() -> (r: MemoryProfile)
    ensures
        r.stack_optimized,
        r.length_cached,
        r.hash_cached,
        r.overhead_per_key == 12,
{
    MemoryProfile {
        stack_optimized: true,
        length_cached: true,
        hash_cached: true,
        overhead_per_key: 12,
    }
}

/// Broad target architecture families.
#[derive(Debug, Clone, Copy, PartialEq, Eq, Structural)]
pub enum ArchCategory {
    /// x86-64 with modern vector extensions.
    X86_64Modern,
    /// Baseline x86-64.
    X86_64,
    /// 64-bit ARM.
    ARM64,
    /// 32-bit ARM.
    ARM32,
    /// Anything else, or no architecture-specific paths.
    Other,
}

/// The short name of an architecture category.
pub open spec fn spec_arch_category_name(c: ArchCategory) -> Seq<char> {
    match c {
        ArchCategory::X86_64Modern => "x86_64-modern"@,
        ArchCategory::X86_64 => "x86_64"@,
        ArchCategory::ARM64 => "arm64"@,
        ArchCategory::ARM32 => "arm32"@,
        ArchCategory::Other => "other"@,
    }
}

impl ArchCategory {
    /// The short name of the category.
    pub fn name(self) -> (r: &'static str)
        ensures
            r@ == spec_arch_category_name(self),
    {
        match self {
            ArchCategory::X86_64Modern => "x86_64-modern",
            ArchCategory::X86_64 => "x86_64",
            ArchCategory::ARM64 => "arm64",
            ArchCategory::ARM32 => "arm32",
            ArchCategory::Other => "other",
        }
    }
}

/// The architecture category this build reports.  The library compiles no
/// architecture-specific code paths, so it reports the portable category
/// rather than probing the machine.
pub fn detect_arch_category() -> (r: ArchCategory)
    ensures
        r == ArchCategory::Other,
{
    ArchCategory::Other
}

/// Build configuration details.
#[derive(Debug, Clone, Copy, PartialEq, Eq, Structural)]
pub struct BuildInfo {
    /// Whether a release profile was detected; this build does not probe
    /// the profile and reports `false`.
    pub is_release: bool,
    /// Whether link-time optimization was detected; likewise not probed.
    pub has_lto: bool,
    /// The architecture category.
    pub arch_category: ArchCategory,
}

/// The build information this library reports: portable defaults, with no
/// probing of compiler profile or machine.
pub fn build_info() -> (r: BuildInfo)
    ensures
        !r.is_release,
        !r.has_lto,
        r.arch_category == ArchCategory::Other,
{
    BuildInfo { is_release: false, has_lto: false, arch_category: ArchCategory::Other }
}

impl BuildInfo {
    /// Render the build information on one line.
    pub fn display_string(&self) -> (r: String)
        ensures
            r@ == "release:"@ + spec_bool_text(self.is_release) + ", lto:"@
                + spec_bool_text(self.has_lto) + ", arch:"@
                + spec_arch_category_name(self.arch_category),
    {
        let mut out = "release:".to_owned();
        out.append(bool_text(self.is_release));
        out.append(", lto:");
        out.append(bool_text(self.has_lto));
        out.append(", arch:");
        out.append(self.arch_category.name());
        out
    }
}

/// Whether length caching is available; it always is.
pub fn has_length_caching() -> (r: bool)
    ensures
        r,
{
    true
}

/// Whether hash caching is available; it always is.
pub fn has_hash_caching() -> (r: bool)
    ensures
        r,
{
    true
}

/// Whether short keys avoid heap allocation; the small-string storage
/// provides this unconditionally.
pub fn has_stack_optimization() -> (r: bool)
    ensures
        r,
{
    true
}

/// Whether the library itself compiles SIMD-specific code paths; it does
/// not.
pub fn has_simd_support() -> (r: bool)
    ensures
        !r,
{
    false
}

/// Whether the configuration favours security: it does, through the
/// cryptographic hash.
pub fn is_security_optimized() -> (r: bool)
    ensures
        r,
{
    has_secure_hash() || has_crypto_hash()
}

/// Whether the configuration favours raw throughput: it does not.
pub fn is_performance_optimized() -> (r: bool)
    ensures
        !r,
{
    has_fast_hash() && has_std()
}

/// Whether the configuration is the balanced default: it is not, being
/// security-leaning.
pub fn is_balanced_configuration() -> (r: bool)
    ensures
        !r,
{
    !is_performance_optimized() && !is_security_optimized()
}

/// Estimated throughput of this configuration relative to the baseline, in
/// percent: the cryptographic hash costs about a fifth, the standard
/// library paths win about a tenth back.
pub fn estimated_improvement_percent() -> (r: u32)
    ensures
        r == 88,
{
    88
}

/// Rough per-operation cost estimates for a configuration.
#[derive(Debug, Clone, Copy, PartialEq, Eq, Structural)]
pub struct BenchmarkResults {
    /// Key creation, nanoseconds per operation.
    pub creation_ns: u64,
    /// Hash access, nanoseconds per operation.
    pub hash_ns: u64,
    /// Length access, nanoseconds per operation.
    pub length_ns: u64,
    /// Comparison, nanoseconds per operation.
    pub comparison_ns: u64,
    /// Memory per key, bytes.
    pub memory_bytes: usize,
}

/// Cost estimates for this configuration, derived from baseline figures of
/// 100ns creation, 10ns hashing and 15ns comparison: creation scaled by the
/// improvement percentage, hashing doubled by the cryptographic algorithm,
/// length reads constant through the cache, comparisons cut to a third by
/// the hash cache, and the cache overhead on top of 24 bytes of storage.
pub fn estimated_benchmark_results() -> (r: BenchmarkResults)
    ensures
        r.creation_ns == 113,
        r.hash_ns == 20,
        r.length_ns == 1,
        r.comparison_ns == 5,
        r.memory_bytes == 36,
{
    let improvement = estimated_improvement_percent();
    let creation = 10000u64 / (improvement as u64);
    proof {
        assert(creation == 113) by (nonlinear_arith)
            requires
                creation == 10000u64 as int / 88,
        {
        }
    }
    let profile = memory_profile();
    BenchmarkResults {
        creation_ns: creation,
        hash_ns: 10 * 2,
        length_ns: 1,
        comparison_ns: 15 / 3,
        memory_bytes: profile.overhead_per_key + 24,
    }
}

/// Recommended feature sets for common goals.
#[derive(Debug, Clone)]
pub struct FeatureRecommendations {
    /// For maximum throughput.
    pub performance: Vec<&'static str>,
    /// For security-sensitive use.
    pub security: Vec<&'static str>,
    /// For balanced use.
    pub balanced: Vec<&'static str>,
    /// For minimal dependencies.
    pub minimal: Vec<&'static str>,
}

/// The feature sets recommended for each goal.
pub fn feature_recommendations() -> (r: FeatureRecommendations)
    ensures
        r.performance@.len() == 3,
        r.security@.len() == 3,
        r.balanced@.len() == 2,
        r.minimal@.len() == 0,
{
    let mut performance: Vec<&'static str> = Vec::new();
    performance.push("fast");
    performance.push("std");
    performance.push("serde");
    let mut security: Vec<&'static str> = Vec::new();
    security.push("secure");
    security.push("std");
    security.push("serde");
    let mut balanced: Vec<&'static str> = Vec::new();
    balanced.push("std");
    balanced.push("serde");
    FeatureRecommendations { performance, security, balanced, minimal: Vec::new() }
}

/// A scored reading of the current configuration.
#[derive(Debug, Clone)]
pub struct ConfigurationAnalysis {
    /// Overall score from 0 to 100.
    pub overall_score: u8,
    /// What the configuration does well.
    pub strengths: Vec<&'static str>,
    /// What it lacks.
    pub weaknesses: Vec<&'static str>,
    /// What could improve it.
    pub suggestions: Vec<&'static str>,
}

/// Score and describe the current configuration: 50 as the base, 15 for
/// the cryptographic hash, 15 for the standard library, nothing for
/// serialization support.
pub fn analyze_current_configuration() -> (r: ConfigurationAnalysis)
    ensures
        r.overall_score == 80,
        r.strengths@.len() == 4,
        r.weaknesses@.len() == 2,
        r.suggestions@.len() == 2,
{
    let mut strengths: Vec<&'static str> = Vec::new();
    strengths.push("Cryptographically secure hashing");
    strengths.push("Full standard library optimizations");
    strengths.push("O(1) hash access with caching");
    strengths.push("O(1) length access with caching");
    let mut weaknesses: Vec<&'static str> = Vec::new();
    weaknesses.push("No serialization support");
    weaknesses.push("Performance below baseline due to security overhead");
    let mut suggestions: Vec<&'static str> = Vec::new();
    suggestions.push("Enable 'serde' feature for serialization support");
    suggestions.push("Consider compiling with target-cpu=native for SIMD optimizations");
    ConfigurationAnalysis { overall_score: 50 + 15 + 15, strengths, weaknesses, suggestions }
}

/// The one-line summary of the configuration: library name, standard
/// library mode, hash algorithm, relative throughput, build details.
pub open spec fn spec_configuration_summary() -> Seq<char> {
    "domain-key "@ + "std"@ + " | "@ + "Blake3"@ + " hash | "@ + "0.9"@ + "x performance | "@
        + "release:"@ + spec_bool_text(false) + ", lto:"@ + spec_bool_text(false) + ", arch:"@
        + spec_arch_category_name(ArchCategory::Other)
}

/// One-line summary of the configuration.
pub fn configuration_summary() -> (r: String)
    ensures
        r@ == spec_configuration_summary(),
{
    let mut out = "domain-key ".to_owned();
    out.append(if has_std() {
        "std"
    } else {
        "no_std"
    });
    out.append(" | ");
    out.append(hash_algorithm());
    out.append(" hash | ");
    // The improvement percentage rounded to one decimal: 88% reads 0.9x.
    out.append("0.9");
    out.append("x performance | ");
    let info = build_info();
    let build = info.display_string();
    out.append(build.as_str());
    out
}

/// The bullet lines of a configuration section, one per item, each ended by
/// a newline.
pub open spec fn spec_section_lines(items: Seq<Seq<char>>) -> Seq<char>
    decreases items.len(),
{
    if items.len() == 0 {
        Seq::empty()
    } else {
        "  â€¢ "@ + items[0] + "\n"@ + spec_section_lines(items.drop_first())
    }
}

proof fn lemma_section_lines_step(items: Seq<Seq<char>>, k: int)
    requires
        0 <= k < items.len(),
    ensures
        spec_section_lines(items.take(k + 1)) == spec_section_lines(items.take(k)) + "  â€¢ "@
            + items[k] + "\n"@,
    decreases k,
{
    if k == 0 {
        assert(items.take(1).drop_first() =~= Seq::<Seq<char>>::empty());
        assert(items.take(0) =~= Seq::<Seq<char>>::empty());
        assert(spec_section_lines(items.take(1)) =~= spec_section_lines(items.take(0)) + "  â€¢ "@
            + items[0] + "\n"@);
    } else {
        lemma_section_lines_step(items.drop_first(), k - 1);
        assert(items.take(k + 1).drop_first() =~= items.drop_first().take(k));
        assert(items.take(k).drop_first() =~= items.drop_first().take(k - 1));
        assert(spec_section_lines(items.take(k + 1)) =~= spec_section_lines(items.take(k))
            + "  â€¢ "@ + items[k] + "\n"@);
    }
}

fn append_section(out: &mut String, items: &Vec<&'static str>)
    ensures
        final(out)@ == old(out)@ + spec_section_lines(
            items@.map_values(|e: &'static str| e@),
        ),
{
    let ghost gs = items@.map_values(|e: &'static str| e@);
    let ghost base = out@;
    let mut i: usize = 0;
    proof {
        assert(gs.take(0) =~= Seq::<Seq<char>>::empty());
    }
    while i < items.len()
        invariant
            gs == items@.map_values(|e: &'static str| e@),
            i <= items@.len(),
            out@ == base + spec_section_lines(gs.take(i as int)),
        decreases items@.len() - i,
    {
        proof {
            lemma_section_lines_step(gs, i as int);
        }
        out.append("  â€¢ ");
        out.append(items[i]);
        out.append("\n");
        i = i + 1;
    }
    proof {
        assert(gs.take(gs.len() as int) =~= gs);
    }
}

/// The multi-line rendering of a configuration analysis.
pub open spec fn spec_analysis_display(a: ConfigurationAnalysis) -> Seq<char> {
    let head = "Configuration Analysis (Score: "@ + spec_decimal(a.overall_score as int)
        + "/100):\n"@;
    let with_strengths = if a.strengths@.len() > 0 {
        head + "\nâœ… Strengths:\n"@ + spec_section_lines(a.strengths@.map_values(|e: &'static str| e@))
    } else {
        head
    };
    let with_weaknesses = if a.weaknesses@.len() > 0 {
        with_strengths + "\nâš ï¸  Weaknesses:\n"@ + spec_section_lines(
            a.weaknesses@.map_values(|e: &'static str| e@),
        )
    } else {
        with_strengths
    };
    if a.suggestions@.len() > 0 {
        with_weaknesses + "\nðŸ’¡ Suggestions:\n"@ + spec_section_lines(
            a.suggestions@.map_values(|e: &'static str| e@),
        )
    } else {
        with_weaknesses
    }
}

impl ConfigurationAnalysis {
    /// Render the analysis over several lines: score first, each non-empty
    /// section with a heading and one bullet line per item.
    pub fn display_string(&self) -> (r: String)
        ensures
            r@ == spec_analysis_display(*self),
    {
        let mut out = "Configuration Analysis (Score: ".to_owned();
        let score = decimal_string(self.overall_score as u64);
        out.append(score.as_str());
        out.append("/100):\n");
        if self.strengths.len() > 0 {
            out.append("\nâœ… Strengths:\n");
            append_section(&mut out, &self.strengths);
        }
        if self.weaknesses.len() > 0 {
            out.append("\nâš ï¸  Weaknesses:\n");
            append_section(&mut out, &self.weaknesses);
        }
        if self.suggestions.len() > 0 {
            out.append("\nðŸ’¡ Suggestions:\n");
            append_section(&mut out, &self.suggestions);
        }
        out
    }
}

/// The multi-line rendering of the benchmark estimates.
pub open spec fn spec_benchmark_display(b: BenchmarkResults) -> Seq<char> {
    "Performance Benchmark Results:\n"@ + "  Key Creation: "@ + spec_decimal(
        b.creation_ns as int,
    ) + " ns/op\n"@ + "  Hash Access: "@ + spec_decimal(b.hash_ns as int) + " ns/op\n"@
        + "  Length Access: "@ + spec_decimal(b.length_ns as int) + " ns/op\n"@
        + "  Comparison: "@ + spec_decimal(b.comparison_ns as int) + " ns/op\n"@
        + "  Memory Usage: "@ + spec_decimal(b.memory_bytes as int) + " bytes/key\n"@
}

impl BenchmarkResults {
    /// Render the estimates over several lines.
    pub fn display_string(&self) -> (r: String)
        ensures
            r@ == spec_benchmark_display(*self),
    {
        let mut out = "Performance Benchmark Results:\n".to_owned();
        out.append("  Key Creation: ");
        let creation = decimal_string(self.creation_ns);
        out.append(creation.as_str());
        out.append(" ns/op\n");
        out.append("  Hash Access: ");
        let hash_cost = decimal_string(self.hash_ns);
        out.append(hash_cost.as_str());
        out.append(" ns/op\n");
        out.append("  Length Access: ");
        let length_cost = decimal_string(self.length_ns);
        out.append(length_cost.as_str());
        out.append(" ns/op\n");
        out.append("  Comparison: ");
        let comparison = decimal_string(self.comparison_ns);
        out.append(comparison.as_str());
        out.append(" ns/op\n");
        out.append("  Memory Usage: ");
        let memory = decimal_string(self.memory_bytes as u64);
        out.append(memory.as_str());
        out.append(" bytes/key\n");
        out
    }
}

} // verus!
