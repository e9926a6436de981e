//! The mode model: a closed set of mutually exclusive file-operation modes,
//! with a canonical default and a dedicated disabled constructor.
//!
//! The effective mode is resolved with the usual precedence: an explicit
//! user value wins outright (the environment is not consulted at all in
//! that case), else two legacy boolean environment knobs are read —
//! `MIRRORD_FILE_RO_OPS` set to `true` selects [`FsModeConfig::Read`],
//! otherwise `MIRRORD_FILE_OPS` set to `true` selects
//! [`FsModeConfig::ReadWrite`] — else the canonical default
//! [`FsModeConfig::Read`] applies.  A knob set to `false` contributes
//! nothing; a knob set to anything but `true` or `false` is a
//! configuration error.

use vstd::prelude::*;

use crate::source::{ConfigError, EnvSnapshot, EnvView, ErrorView};

verus! {

/// The file-operation mode of a resolved configuration.
#[derive(Debug, Clone, Copy, PartialEq, Eq, Structural)]
pub enum FsModeConfig {
    /// File operations are switched off entirely.
    Disabled,
    /// Only read operations are performed.
    Read,
    /// Only write operations are performed.
    Write,
    /// Both read and write operations are performed.
    ReadWrite,
}

impl FsModeConfig {
    /// Whether this mode permits read operations.
    pub open spec fn spec_is_read(self) -> bool {
        self == FsModeConfig::Read || self == FsModeConfig::ReadWrite
    }

    /// Whether this mode permits write operations.
    pub open spec fn spec_is_write(self) -> bool {
        self == FsModeConfig::Write || self == FsModeConfig::ReadWrite
    }

    pub fn is_read(&self) -> (r: bool)
        ensures
            r == self.spec_is_read(),
    {
        matches!(self, FsModeConfig::Read | FsModeConfig::ReadWrite)
    }

    pub fn is_write(&self) -> (r: bool)
        ensures
            r == self.spec_is_write(),
    {
        matches!(self, FsModeConfig::Write | FsModeConfig::ReadWrite)
    }

    /// The disable path: returns [`FsModeConfig::Disabled`] unconditionally,
    /// consulting neither user value nor environment — disabling is an
    /// explicit override from a higher-level toggle, not a per-field
    /// resolution.
    pub fn disabled_config() -> (r: FsModeConfig)
        ensures
            r == FsModeConfig::Disabled,
    {
        FsModeConfig::Disabled
    }
}

/// How a boolean environment knob parses: exactly `"true"` and `"false"`
/// are accepted.
pub open spec fn parse_bool_spec(s: Seq<char>) -> Option<bool> {
    if s == "true"@ {
        Some(true)
    } else if s == "false"@ {
        Some(false)
    } else {
        None
    }
}

fn parse_bool(s: &String) -> (r: Option<bool>)
    ensures
        r == parse_bool_spec(s@),
{
    let t: String = String::from_str("true");
    let f: String = String::from_str("false");
    if *s == t {
        Some(true)
    } else if *s == f {
        Some(false)
    } else {
        None
    }
}

/// The mode the two legacy environment knobs select, if any: a true
/// read-only knob selects [`FsModeConfig::Read`] (it wins over the other
/// knob), else a true all-operations knob selects
/// [`FsModeConfig::ReadWrite`]; unset or false knobs select nothing.
pub open spec fn mode_from_flags(file_ops: Option<bool>, ro_file_ops: Option<bool>) -> Option<
    FsModeConfig,
> {
    if ro_file_ops == Some(true) {
        Some(FsModeConfig::Read)
    } else if file_ops == Some(true) {
        Some(FsModeConfig::ReadWrite)
    } else {
        None
    }
}

/// How one boolean knob resolves: unset is no signal, a parseable value is
/// that boolean, and anything else is an error carrying the offending value.
pub open spec fn flag_value_spec(v: Option<Seq<char>>) -> Result<Option<bool>, Seq<char>> {
    match v {
        None => Ok(None),
        Some(s) => match parse_bool_spec(s) {
            Some(b) => Ok(Some(b)),
            None => Err(s),
        },
    }
}

/// The mode the environment alone yields: both knobs are parsed
/// (`MIRRORD_FILE_OPS` first), and the knob-selected mode or the default
/// [`FsModeConfig::Read`] results.
pub open spec fn env_mode_spec(env: EnvView) -> Result<FsModeConfig, ErrorView> {
    match flag_value_spec(env.file_ops) {
        Err(s) => Err(ErrorView { variable: "MIRRORD_FILE_OPS"@, value: s }),
        Ok(file_ops) => match flag_value_spec(env.ro_file_ops) {
            Err(s) => Err(ErrorView { variable: "MIRRORD_FILE_RO_OPS"@, value: s }),
            Ok(ro_file_ops) => Ok(
                crate::source::source_precedence(
                    None,
                    mode_from_flags(file_ops, ro_file_ops),
                    FsModeConfig::Read,
                ),
            ),
        },
    }
}

/// The effective mode: the explicit user value if present — in which case
/// the environment is not consulted and cannot cause an error — else the
/// environment-derived mode of [`env_mode_spec`].
pub open spec fn mode_resolve_spec(explicit: Option<FsModeConfig>, env: EnvView) -> Result<
    FsModeConfig,
    ErrorView,
> {
    match explicit {
        Some(m) => Ok(m),
        None => env_mode_spec(env),
    }
}

fn flag_of(value: &Option<String>, variable: &str) -> (r: Result<Option<bool>, ConfigError>)
    ensures
        match r {
            Ok(b) => flag_value_spec(value.deep_view()) == Ok::<Option<bool>, Seq<char>>(b),
            Err(e) => flag_value_spec(value.deep_view()) == Err::<Option<bool>, Seq<char>>(
                e@.value,
            ) && e@.variable == variable@,
        },
{
    match value {
        None => Ok(None),
        Some(s) => match parse_bool(s) {
            Some(b) => Ok(Some(b)),
            None => Err(
                ConfigError::InvalidValue {
                    variable: String::from_str(variable),
                    value: s.clone(),
                },
            ),
        },
    }
}

impl FsModeConfig {
    /// Resolve the effective mode from the explicit user value and the
    /// environment snapshot, per [`mode_resolve_spec`].
    pub fn resolve(explicit: Option<FsModeConfig>, env: &EnvSnapshot) -> (r: Result<
        FsModeConfig,
        ConfigError,
    >)
        ensures
            match r {
                Ok(m) => mode_resolve_spec(explicit, env@) == Ok::<FsModeConfig, ErrorView>(m),
                Err(e) => mode_resolve_spec(explicit, env@) == Err::<FsModeConfig, ErrorView>(e@),
            },
    {
        match explicit {
            Some(m) => Ok(m),
            None => {
                let file_ops = match flag_of(&env.file_ops, "MIRRORD_FILE_OPS") {
                    Ok(b) => b,
                    Err(e) => {
                        return Err(e);
                    },
                };
                let ro_file_ops = match flag_of(&env.ro_file_ops, "MIRRORD_FILE_RO_OPS") {
                    Ok(b) => b,
                    Err(e) => {
                        return Err(e);
                    },
                };
                let from_env = match (file_ops, ro_file_ops) {
                    (_, Some(true)) => Some(FsModeConfig::Read),
                    (Some(true), _) => Some(FsModeConfig::ReadWrite),
                    _ => None,
                };
                Ok(crate::source::resolve_with_default(None, from_env, FsModeConfig::Read))
            },
        }
    }
}

} // verus!
