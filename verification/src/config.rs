//! The resolver and the resolved configuration.
//!
//! [`AdvancedFsUserConfig`] is what the user explicitly wrote: every field
//! optional.  [`AdvancedFsUserConfig::generate_config`] overlays it with an
//! environment snapshot and static defaults into one immutable
//! [`FsConfig`].  [`AdvancedFsUserConfig::disabled_config`] is the toggle
//! escape hatch: it takes no user configuration, forces the mode to
//! [`FsModeConfig::Disabled`], and still resolves the filters from the
//! environment — turning the feature off suppresses the mode, not the
//! filters, which downstream consumers may want reported even then.

use vstd::prelude::*;

use crate::filter::{
    filter_resolve_spec, opt_patterns_view, opt_vos_view, resolve_filter, PatternSet, VecOrSingle,
};
use crate::mode::{mode_resolve_spec, FsModeConfig};
use crate::source::{ConfigError, EnvSnapshot, EnvView, ErrorView};

verus! {

/// Advanced user configuration for file operations: what the user
/// explicitly wrote, every field optional.
///
/// `mode` is the nested file-operation mode; `includes` and `exclude` are
/// pattern fields matched against file paths when file operations are
/// enabled — files matching `includes` are operated on, files matching
/// `exclude` are passed by.
#[derive(Debug, Clone)]
pub struct AdvancedFsUserConfig {
    /// File operations mode; defaults to read-only.
    pub mode: Option<FsModeConfig>,
    /// Patterns selecting the files operated on; the environment variable
    /// `MIRRORD_FILE_FILTER_INCLUDE` feeds it.
    pub includes: Option<VecOrSingle>,
    /// Patterns selecting the files passed by; the environment variable
    /// `MIRRORD_FILE_FILTER_EXCLUDE` feeds it.
    pub exclude: Option<VecOrSingle>,
}

/// Mathematical model of an [`AdvancedFsUserConfig`]: each pattern field
/// as its normalized optional sequence.
pub ghost struct UserView {
    pub mode: Option<FsModeConfig>,
    pub includes: Option<Seq<Seq<char>>>,
    pub exclude: Option<Seq<Seq<char>>>,
}

impl View for AdvancedFsUserConfig {
    type V = UserView;

    open spec fn view(&self) -> UserView {
        UserView {
            mode: self.mode,
            includes: opt_vos_view(self.includes),
            exclude: opt_vos_view(self.exclude),
        }
    }
}

impl Default for AdvancedFsUserConfig {
    /// The empty user configuration: nothing explicitly set.
    fn default() -> (r: AdvancedFsUserConfig)
        ensures
            r@.mode is None,
            r@.includes is None,
            r@.exclude is None,
    {
        AdvancedFsUserConfig { mode: None, includes: None, exclude: None }
    }
}

/// The fully resolved, immutable file-operations configuration.
#[derive(Debug, Clone)]
pub struct FsConfig {
    pub mode: FsModeConfig,
    pub includes: Option<PatternSet>,
    pub exclude: Option<PatternSet>,
}

/// Mathematical model of an [`FsConfig`].
pub ghost struct ResolvedView {
    pub mode: FsModeConfig,
    pub includes: Option<Seq<Seq<char>>>,
    pub exclude: Option<Seq<Seq<char>>>,
}

impl View for FsConfig {
    type V = ResolvedView;

    open spec fn view(&self) -> ResolvedView {
        ResolvedView {
            mode: self.mode,
            includes: opt_patterns_view(self.includes),
            exclude: opt_patterns_view(self.exclude),
        }
    }
}

/// How a whole user configuration resolves against an environment
/// snapshot: the mode per [`mode_resolve_spec`] — whose knob-parse error,
/// if any, is the result — and each filter independently per
/// [`filter_resolve_spec`].
pub open spec fn resolve_spec(user: UserView, env: EnvView) -> Result<ResolvedView, ErrorView> {
    match mode_resolve_spec(user.mode, env) {
        Err(e) => Err(e),
        Ok(m) => Ok(
            ResolvedView {
                mode: m,
                includes: filter_resolve_spec(user.includes, env.filter_include),
                exclude: filter_resolve_spec(user.exclude, env.filter_exclude),
            },
        ),
    }
}

/// How the disable path resolves: the mode is forced to
/// [`FsModeConfig::Disabled`] — no knob is consulted, so no error can
/// arise — and the filters still resolve from the environment alone.
pub open spec fn disabled_spec(env: EnvView) -> ResolvedView {
    ResolvedView {
        mode: FsModeConfig::Disabled,
        includes: filter_resolve_spec(None, env.filter_include),
        exclude: filter_resolve_spec(None, env.filter_exclude),
    }
}

/// Cross-field validation of an assembled configuration, applied before it
/// is returned: the seam where contradictory combinations would be
/// rejected.  No combination is currently invalid — in particular both
/// filters may be present at once — so every configuration passes through
/// unchanged.
fn validate(c: FsConfig) -> (r: Result<FsConfig, ConfigError>)
    ensures
        r matches Ok(out) && out == c,
{
    Ok(c)
}

impl AdvancedFsUserConfig {
    /// Resolve this user configuration against the given environment
    /// snapshot, per [`resolve_spec`].
    pub fn generate_config(self, env: &EnvSnapshot) -> (r: Result<FsConfig, ConfigError>)
        ensures
            match r {
                Ok(c) => resolve_spec(self@, env@) == Ok::<ResolvedView, ErrorView>(c@),
                Err(e) => resolve_spec(self@, env@) == Err::<ResolvedView, ErrorView>(e@),
            },
    {
        let mode = match FsModeConfig::resolve(self.mode, env) {
            Ok(m) => m,
            Err(e) => {
                return Err(e);
            },
        };
        let includes = resolve_filter(self.includes, &env.filter_include);
        let exclude = resolve_filter(self.exclude, &env.filter_exclude);
        validate(FsConfig { mode, includes, exclude })
    }

    /// The toggle escape hatch: resolve with no user configuration at all,
    /// forcing the disabled mode while still taking the filters from the
    /// environment, per [`disabled_spec`].  It cannot fail.
    pub fn disabled_config(env: &EnvSnapshot) -> (r: Result<FsConfig, ConfigError>)
        ensures
            r matches Ok(c) && c@ == disabled_spec(env@),
    {
        let mode = FsModeConfig::disabled_config();
        let includes = resolve_filter(None, &env.filter_include);
        let exclude = resolve_filter(None, &env.filter_exclude);
        validate(FsConfig { mode, includes, exclude })
    }
}

impl FsConfig {
    /// Whether the resolved mode permits read operations.
    pub fn is_read(&self) -> (r: bool)
        ensures
            r == self@.mode.spec_is_read(),
    {
        self.mode.is_read()
    }

    /// Whether the resolved mode permits write operations.
    pub fn is_write(&self) -> (r: bool)
        ensures
            r == self@.mode.spec_is_write(),
    {
        self.mode.is_write()
    }
}

fn vec_string_eq(a: &Vec<String>, b: &Vec<String>) -> (r: bool)
    ensures
        r == (a.deep_view() == b.deep_view()),
{
    if a.len() != b.len() {
        proof {
            assert(a.deep_view().len() == a@.len());
            assert(b.deep_view().len() == b@.len());
        }
        return false;
    }
    let mut i: usize = 0;
    while i < a.len()
        invariant
            a@.len() == b@.len(),
            i <= a@.len(),
            forall|j: int| 0 <= j < i ==> a.deep_view()[j] == b.deep_view()[j],
        decreases a@.len() - i,
    {
        if *(&a[i]) != *(&b[i]) {
            proof {
                assert(a.deep_view()[i as int] != b.deep_view()[i as int]);
            }
            return false;
        }
        i = i + 1;
    }
    proof {
        assert(a.deep_view() =~= b.deep_view());
    }
    true
}

fn opt_patterns_eq(a: &Option<PatternSet>, b: &Option<PatternSet>) -> (r: bool)
    ensures
        r == (opt_patterns_view(*a) == opt_patterns_view(*b)),
{
    match (a, b) {
        (None, None) => true,
        (Some(x), Some(y)) => vec_string_eq(&x.patterns, &y.patterns),
        _ => false,
    }
}

impl PartialEq for FsConfig {
    /// Structural equality: two resolved configurations are equal exactly
    /// when mode, includes and exclude all are.
    fn eq(&self, other: &FsConfig) -> (r: bool) {
        self.mode == other.mode && opt_patterns_eq(&self.includes, &other.includes)
            && opt_patterns_eq(&self.exclude, &other.exclude)
    }
}

impl vstd::std_specs::cmp::PartialEqSpecImpl for FsConfig {
    open spec fn obeys_eq_spec() -> bool {
        true
    }

    open spec fn eq_spec(&self, other: &FsConfig) -> bool {
        self@ == other@
    }
}

impl Eq for FsConfig {}

} // verus!
