use fs_config::config::{AdvancedFsUserConfig, FsConfig};
use fs_config::filter::{PatternSet, VecOrSingle};
use fs_config::mode::FsModeConfig;
use fs_config::source::{ConfigError, EnvSnapshot};

fn unset_env() -> EnvSnapshot {
    EnvSnapshot::unset()
}

fn pattern_set(patterns: &[&str]) -> PatternSet {
    PatternSet { patterns: patterns.iter().map(|p| p.to_string()).collect() }
}

#[test]
fn test_advanced_fs_config_default() {
    let expect = FsConfig { mode: FsModeConfig::Read, includes: None, exclude: None };

    let fs_config = AdvancedFsUserConfig::default().generate_config(&unset_env()).unwrap();

    assert_eq!(fs_config, expect);
}

#[test]
fn test_advanced_fs_config_file_filter_include() {
    let expect = FsConfig {
        mode: FsModeConfig::Read,
        includes: Some(pattern_set(&[".*"])),
        exclude: None,
    };

    let fs_config = AdvancedFsUserConfig {
        includes: Some(VecOrSingle::Single(".*".to_string())),
        ..Default::default()
    }
    .generate_config(&unset_env())
    .unwrap();

    assert_eq!(fs_config, expect);
}

#[test]
fn test_env_include_delimited() {
    let env = EnvSnapshot { filter_include: Some("a.txt,b.txt".to_string()), ..unset_env() };

    let fs_config = AdvancedFsUserConfig::default().generate_config(&env).unwrap();

    let expect = FsConfig {
        mode: FsModeConfig::Read,
        includes: Some(pattern_set(&["a.txt", "b.txt"])),
        exclude: None,
    };
    assert_eq!(fs_config, expect);
}

#[test]
fn test_disabled_with_exclude_env() {
    let env = EnvSnapshot { filter_exclude: Some("x".to_string()), ..unset_env() };

    let fs_config = AdvancedFsUserConfig::disabled_config(&env).unwrap();

    let expect = FsConfig {
        mode: FsModeConfig::Disabled,
        includes: None,
        exclude: Some(pattern_set(&["x"])),
    };
    assert_eq!(fs_config, expect);
    assert!(!fs_config.is_read());
    assert!(!fs_config.is_write());
}

#[test]
fn test_disabled_ignores_mode_knobs() {
    // The disable path never consults the mode knobs: even a malformed one
    // cannot make it fail.
    let env = EnvSnapshot {
        file_ops: Some("garbage".to_string()),
        ro_file_ops: Some("true".to_string()),
        ..unset_env()
    };

    let fs_config = AdvancedFsUserConfig::disabled_config(&env).unwrap();

    assert_eq!(fs_config.mode, FsModeConfig::Disabled);
}

#[test]
fn test_explicit_filter_wins_over_env() {
    let env = EnvSnapshot { filter_include: Some("e1,e2".to_string()), ..unset_env() };

    let fs_config = AdvancedFsUserConfig {
        includes: Some(VecOrSingle::Single("u".to_string())),
        ..Default::default()
    }
    .generate_config(&env)
    .unwrap();

    assert_eq!(fs_config.includes.unwrap().patterns, vec!["u".to_string()]);
}

#[test]
fn test_explicit_mode_wins_over_env() {
    let env = EnvSnapshot { ro_file_ops: Some("true".to_string()), ..unset_env() };

    let fs_config = AdvancedFsUserConfig {
        mode: Some(FsModeConfig::Write),
        ..Default::default()
    }
    .generate_config(&env)
    .unwrap();

    assert_eq!(fs_config.mode, FsModeConfig::Write);
}

#[test]
fn test_explicit_mode_skips_env_parsing() {
    // With an explicit mode the knobs are not read at all, so a malformed
    // knob is no error.
    let env = EnvSnapshot { file_ops: Some("garbage".to_string()), ..unset_env() };

    let fs_config = AdvancedFsUserConfig {
        mode: Some(FsModeConfig::ReadWrite),
        ..Default::default()
    }
    .generate_config(&env)
    .unwrap();

    assert_eq!(fs_config.mode, FsModeConfig::ReadWrite);
}

#[test]
fn test_mode_from_env_flags() {
    let cases: Vec<(Option<&str>, Option<&str>, FsModeConfig)> = vec![
        (None, Some("true"), FsModeConfig::Read),
        (Some("true"), None, FsModeConfig::ReadWrite),
        (Some("true"), Some("true"), FsModeConfig::Read),
        (Some("false"), Some("false"), FsModeConfig::Read),
        (Some("false"), None, FsModeConfig::Read),
    ];
    for (file_ops, ro_file_ops, expect) in cases {
        let env = EnvSnapshot {
            file_ops: file_ops.map(|s| s.to_string()),
            ro_file_ops: ro_file_ops.map(|s| s.to_string()),
            ..unset_env()
        };
        let fs_config = AdvancedFsUserConfig::default().generate_config(&env).unwrap();
        assert_eq!(fs_config.mode, expect);
    }
}

#[test]
fn test_malformed_file_ops_is_error() {
    let env = EnvSnapshot { file_ops: Some("yes".to_string()), ..unset_env() };

    let err = AdvancedFsUserConfig::default().generate_config(&env).unwrap_err();

    let ConfigError::InvalidValue { variable, value } = err;
    assert_eq!(variable, "MIRRORD_FILE_OPS");
    assert_eq!(value, "yes");
}

#[test]
fn test_malformed_ro_file_ops_is_error() {
    let env = EnvSnapshot {
        file_ops: Some("true".to_string()),
        ro_file_ops: Some("1".to_string()),
        ..unset_env()
    };

    let err = AdvancedFsUserConfig::default().generate_config(&env).unwrap_err();

    let ConfigError::InvalidValue { variable, value } = err;
    assert_eq!(variable, "MIRRORD_FILE_RO_OPS");
    assert_eq!(value, "1");
}

#[test]
fn test_empty_string_flag_is_error() {
    // A boolean knob set to the empty string is set but unparseable.
    let env = EnvSnapshot { file_ops: Some(String::new()), ..unset_env() };

    let err = AdvancedFsUserConfig::default().generate_config(&env).unwrap_err();

    let ConfigError::InvalidValue { variable, value } = err;
    assert_eq!(variable, "MIRRORD_FILE_OPS");
    assert_eq!(value, "");
}

#[test]
fn test_structural_equality_distinguishes_fields() {
    let base = FsConfig { mode: FsModeConfig::Read, includes: None, exclude: None };
    let other_mode = FsConfig { mode: FsModeConfig::Write, includes: None, exclude: None };
    let other_exclude = FsConfig {
        mode: FsModeConfig::Read,
        includes: None,
        exclude: Some(pattern_set(&["x"])),
    };

    assert_eq!(base, base.clone());
    assert_ne!(base, other_mode);
    assert_ne!(base, other_exclude);
    assert_ne!(
        FsConfig { exclude: Some(pattern_set(&["x"])), ..base.clone() },
        FsConfig { exclude: Some(pattern_set(&["y"])), ..base }
    );
}

#[test]
fn test_resolution_is_idempotent() {
    let env = EnvSnapshot {
        ro_file_ops: Some("true".to_string()),
        filter_include: Some("a,b".to_string()),
        filter_exclude: Some("c".to_string()),
        ..unset_env()
    };
    let user = AdvancedFsUserConfig {
        exclude: Some(VecOrSingle::Multiple(vec!["d".to_string()])),
        ..Default::default()
    };

    let first = user.clone().generate_config(&env).unwrap();
    let second = user.generate_config(&env).unwrap();

    assert_eq!(first, second);
}
