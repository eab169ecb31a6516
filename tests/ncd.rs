use ldsi::ncd::{compute_ncd_with, NcdConfig};
use ldsi::{compressed_size, compute_ncd, ncd_from_sizes, ncd_score, size_or_raw, Ratio};

#[test]
fn test_identical_texts() {
    let text = "Le chat dort sur le canapé.";
    let result = compute_ncd(text, text);
    let score = result.score.num as f64 / result.score.den as f64;
    assert!(score < 0.3, "NCD identique devrait être < 0.3, got {}", score);
}

#[test]
fn test_different_texts() {
    let a = "Le chat dort paisiblement sur le canapé rouge.";
    let b = "La singularité quantique transcende les paradigmes ontologiques.";
    let result = compute_ncd(a, b);
    let score = result.score.num as f64 / result.score.den as f64;
    assert!(score > 0.5, "NCD différent devrait être > 0.5, got {}", score);
}

#[test]
fn test_audit_trail() {
    let a = "Hello";
    let b = "World";
    let result = compute_ncd(a, b);
    assert!(result.size_a > 0);
    assert!(result.size_b > 0);
    assert!(result.size_combined > 0);
    assert_eq!(result.raw_size_a, 5);
    assert_eq!(result.raw_size_b, 5);
}

#[test]
fn score_stays_within_bounds() {
    let texts = [
        "",
        "a",
        "Hello",
        "World",
        "Le chat dort sur le canapé.",
        "La singularité quantique transcende les paradigmes ontologiques.",
        "aaaaaaaaaaaaaaaaaaaaaaaaaaaaaaaaaaaaaaaaaaaaaaaaaaaaaaaaaaaaaaaa",
    ];
    for a in texts.iter() {
        for b in texts.iter() {
            let s = compute_ncd(a, b).score;
            assert!(s.den > 0);
            assert!(2 * s.num <= 3 * s.den);
        }
    }
}

#[test]
fn empty_texts_score_zero() {
    let result = compute_ncd("", "");
    assert_eq!(result.score.num, 0);
    assert_eq!(result.raw_size_a, 0);
    assert_eq!(result.raw_size_b, 0);
}

#[test]
fn raw_size_counts_bytes() {
    let result = compute_ncd("café", "x");
    assert_eq!(result.raw_size_a, 5);
    assert_eq!(result.raw_size_b, 1);
}

#[test]
fn order_can_change_combined_size() {
    let pairs = [
        ("aaaaaaaaaaaaaaaaaaaaaaaaaaaaaaaaaaaaaaaaaaaaaaaaaaaaaaaa", "The quick brown fox jumps over the lazy dog"),
        ("abcabcabcabcabcabcabcabcabcabcabcabcabcabc", "xyz"),
        ("Le chat dort sur le canapé.", "Le chat dort sur le canapé rouge, paisiblement, tout l'après-midi."),
        ("0123456789", "01234567890123456789012345678901234567890123456789"),
        ("Hello", "Hello, World! Hello, World! Hello, World! Hello, World!"),
    ];
    let differs = pairs.iter().any(|(a, b)| {
        compute_ncd(a, b).size_combined != compute_ncd(b, a).size_combined
    });
    assert!(differs);
}

#[test]
fn repeated_calls_agree() {
    let a = "Le chat dort paisiblement sur le canapé rouge.";
    let b = "La singularité quantique transcende les paradigmes ontologiques.";
    let first = compute_ncd(a, b);
    let second = compute_ncd(a, b);
    assert_eq!(first, second);
    assert_eq!(ncd_score(a, b), first.score);
}

#[test]
fn from_sizes_raw_score() {
    let r = ncd_from_sizes(10, 20, 25, 3, 4, &NcdConfig::default());
    assert_eq!(r.score, Ratio { num: 15, den: 20 });
    assert_eq!((r.size_a, r.size_b, r.size_combined), (10, 20, 25));
    assert_eq!((r.raw_size_a, r.raw_size_b), (3, 4));
}

#[test]
fn from_sizes_clamps_high() {
    let r = ncd_from_sizes(20, 10, 45, 0, 0, &NcdConfig::default());
    assert_eq!(r.score, Ratio { num: 3, den: 2 });
    let at_bound = ncd_from_sizes(10, 20, 40, 0, 0, &NcdConfig::default());
    assert_eq!(at_bound.score, Ratio { num: 3, den: 2 });
    let below = ncd_from_sizes(10, 20, 39, 0, 0, &NcdConfig::default());
    assert_eq!(below.score, Ratio { num: 29, den: 20 });
}

#[test]
fn from_sizes_clamps_negative_to_zero() {
    let r = ncd_from_sizes(10, 20, 5, 0, 0, &NcdConfig::default());
    assert_eq!(r.score, Ratio { num: 0, den: 1 });
}

#[test]
fn from_sizes_zero_sizes() {
    let r = ncd_from_sizes(0, 0, 7, 0, 0, &NcdConfig::default());
    assert_eq!(r.score, Ratio { num: 0, den: 1 });
}

#[test]
fn custom_clamp_applies() {
    let config = NcdConfig { level: 3, max_score: Ratio { num: 1, den: 1 } };
    let r = ncd_from_sizes(10, 20, 45, 0, 0, &config);
    assert_eq!(r.score, Ratio { num: 1, den: 1 });
    let t = compute_ncd_with("Hello", "World", &config);
    assert!(t.score.num <= t.score.den);
}

#[test]
fn default_config_values() {
    let config = NcdConfig::default();
    assert_eq!(config.level, 3);
    assert_eq!(config.max_score, Ratio { num: 3, den: 2 });
}

#[test]
fn fallback_uses_raw_length() {
    assert_eq!(size_or_raw(&Some(vec![1u8, 2, 3]), 10), 3);
    assert_eq!(size_or_raw(&None, 10), 10);
}

#[test]
fn repetitive_input_compresses() {
    let input = vec![b'a'; 1000];
    let size = compressed_size(&input, 3);
    assert!(size > 0);
    assert!(size < 1000);
}
