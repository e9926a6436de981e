use fs_config::config::AdvancedFsUserConfig;
use fs_config::filter::{PatternSet, VecOrSingle};
use fs_config::mode::FsModeConfig;
use fs_config::source::EnvSnapshot;

fn unset_env() -> EnvSnapshot {
    EnvSnapshot::unset()
}

fn owned(patterns: &[&str]) -> Vec<String> {
    patterns.iter().map(|p| p.to_string()).collect()
}

#[test]
fn test_scalar_and_sequence_resolve_equal() {
    let env = unset_env();

    let from_scalar = AdvancedFsUserConfig {
        includes: Some(VecOrSingle::Single("x".to_string())),
        ..Default::default()
    }
    .generate_config(&env)
    .unwrap();

    let from_sequence = AdvancedFsUserConfig {
        includes: Some(VecOrSingle::Multiple(vec!["x".to_string()])),
        ..Default::default()
    }
    .generate_config(&env)
    .unwrap();

    assert_eq!(from_scalar, from_sequence);
}

#[test]
fn test_empty_string_env_is_present_but_empty() {
    let env = EnvSnapshot { filter_include: Some(String::new()), ..unset_env() };

    let fs_config = AdvancedFsUserConfig::default().generate_config(&env).unwrap();

    let includes = fs_config.includes.expect("a set variable must yield a present set");
    assert!(includes.patterns.is_empty());

    // Distinct from the variable being unset, which yields an absent set.
    let unset = AdvancedFsUserConfig::default().generate_config(&unset_env()).unwrap();
    assert!(unset.includes.is_none());
}

#[test]
fn test_parse_env_single_scalar() {
    assert_eq!(PatternSet::parse_env("abc").patterns, owned(&["abc"]));
}

#[test]
fn test_parse_env_delimited() {
    assert_eq!(PatternSet::parse_env("a.txt,b.txt").patterns, owned(&["a.txt", "b.txt"]));
}

#[test]
fn test_parse_env_empty_pieces() {
    assert_eq!(PatternSet::parse_env("a,,b").patterns, owned(&["a", "", "b"]));
    assert_eq!(PatternSet::parse_env(",x").patterns, owned(&["", "x"]));
    assert_eq!(PatternSet::parse_env("x,").patterns, owned(&["x", ""]));
    assert_eq!(PatternSet::parse_env(",").patterns, owned(&["", ""]));
}

#[test]
fn test_parse_env_empty_string() {
    assert_eq!(PatternSet::parse_env("").patterns, Vec::<String>::new());
}

#[test]
fn test_normalization_keeps_order() {
    let fs_config = AdvancedFsUserConfig {
        exclude: Some(VecOrSingle::Multiple(owned(&["b", "a", "c"]))),
        ..Default::default()
    }
    .generate_config(&unset_env())
    .unwrap();

    assert_eq!(fs_config.exclude.unwrap().patterns, owned(&["b", "a", "c"]));
}

#[test]
fn test_both_filters_carried_through() {
    let env = EnvSnapshot { filter_exclude: Some("e".to_string()), ..unset_env() };

    let fs_config = AdvancedFsUserConfig {
        includes: Some(VecOrSingle::Single("i".to_string())),
        ..Default::default()
    }
    .generate_config(&env)
    .unwrap();

    // Include and exclude may coexist: neither is dropped for the other.
    assert_eq!(fs_config.includes.unwrap().patterns, owned(&["i"]));
    assert_eq!(fs_config.exclude.unwrap().patterns, owned(&["e"]));
}

#[test]
fn test_mode_queries() {
    assert!(!FsModeConfig::Disabled.is_read());
    assert!(!FsModeConfig::Disabled.is_write());
    assert!(FsModeConfig::Read.is_read());
    assert!(!FsModeConfig::Read.is_write());
    assert!(!FsModeConfig::Write.is_read());
    assert!(FsModeConfig::Write.is_write());
    assert!(FsModeConfig::ReadWrite.is_read());
    assert!(FsModeConfig::ReadWrite.is_write());
}

#[test]
fn test_disabled_mode_constructor() {
    assert_eq!(FsModeConfig::disabled_config(), FsModeConfig::Disabled);
}
