//! Source providers: where a single field's value may come from, and the
//! fixed precedence between those sources.
//!
//! Every resolvable field has up to three origins: an explicit value the
//! user wrote, a named environment variable, and a static default.  The
//! precedence is explicit > environment > default.  An environment variable
//! that is set — even to the empty string — counts as present; only an
//! unset variable falls through to the default.

use vstd::prelude::*;

verus! {

/// A snapshot of the process environment variables this library reads.
///
/// The embedding program captures the variables below (each field is
/// `Some` exactly when the variable is set, holding its value verbatim)
/// and hands the snapshot in; resolution is then a pure function of it.
///
/// - `file_ops` holds `MIRRORD_FILE_OPS`;
/// - `ro_file_ops` holds `MIRRORD_FILE_RO_OPS`;
/// - `filter_include` holds `MIRRORD_FILE_FILTER_INCLUDE`;
/// - `filter_exclude` holds `MIRRORD_FILE_FILTER_EXCLUDE`.
#[derive(Debug, Clone)]
pub struct EnvSnapshot {
    pub file_ops: Option<String>,
    pub ro_file_ops: Option<String>,
    pub filter_include: Option<String>,
    pub filter_exclude: Option<String>,
}

/// Mathematical model of an [`EnvSnapshot`]: each variable's value as an
/// optional character sequence.
pub ghost struct EnvView {
    pub file_ops: Option<Seq<char>>,
    pub ro_file_ops: Option<Seq<char>>,
    pub filter_include: Option<Seq<char>>,
    pub filter_exclude: Option<Seq<char>>,
}

impl View for EnvSnapshot {
    type V = EnvView;

    open spec fn view(&self) -> EnvView {
        EnvView {
            file_ops: self.file_ops.deep_view(),
            ro_file_ops: self.ro_file_ops.deep_view(),
            filter_include: self.filter_include.deep_view(),
            filter_exclude: self.filter_exclude.deep_view(),
        }
    }
}

impl EnvSnapshot {
    /// A snapshot in which no variable is set.
    pub fn unset() -> (r: EnvSnapshot)
        ensures
            r@.file_ops is None,
            r@.ro_file_ops is None,
            r@.filter_include is None,
            r@.filter_exclude is None,
    {
        EnvSnapshot { file_ops: None, ro_file_ops: None, filter_include: None, filter_exclude: None }
    }
}

/// An error produced by resolution.
///
/// Resolution fails only when an environment variable is set but its value
/// cannot be parsed into the field's type; it never falls back to a default
/// silently in that case.  Further variants are reserved for future
/// cross-field validation.
#[derive(Debug, Clone)]
pub enum ConfigError {
    /// The environment variable `variable` was set to `value`, which does
    /// not parse into the type of the field it feeds.
    InvalidValue { variable: String, value: String },
}

/// Mathematical model of a [`ConfigError`].
pub ghost struct ErrorView {
    pub variable: Seq<char>,
    pub value: Seq<char>,
}

impl View for ConfigError {
    type V = ErrorView;

    open spec fn view(&self) -> ErrorView {
        match self {
            ConfigError::InvalidValue { variable, value } => ErrorView {
                variable: variable@,
                value: value@,
            },
        }
    }
}

/// The fixed precedence for a field with a non-absent default: the explicit
/// value if present, else the environment-derived value if present, else
/// the default.
pub open spec fn source_precedence<T>(explicit: Option<T>, env: Option<T>, default_value: T) -> T {
    match explicit {
        Some(v) => v,
        None => match env {
            Some(v) => v,
            None => default_value,
        },
    }
}

/// The fixed precedence for a field whose default is "absent": the explicit
/// value if present, else the environment-derived value, which may itself
/// be absent.
pub open spec fn optional_precedence<T>(explicit: Option<T>, env: Option<T>) -> Option<T> {
    match explicit {
        Some(v) => Some(v),
        None => env,
    }
}

/// Executable counterpart of [`source_precedence`].
pub fn resolve_with_default<T>(explicit: Option<T>, env: Option<T>, default_value: T) -> (r: T)
    ensures
        r == source_precedence(explicit, env, default_value),
{
    match explicit {
        Some(v) => v,
        None => match env {
            Some(v) => v,
            None => default_value,
        },
    }
}

/// Executable counterpart of [`optional_precedence`].
pub fn resolve_optional<T>(explicit: Option<T>, env: Option<T>) -> (r: Option<T>)
    ensures
        r == optional_precedence(explicit, env),
{
    match explicit {
        Some(v) => Some(v),
        None => env,
    }
}

} // verus!
