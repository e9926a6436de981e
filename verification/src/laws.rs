//! The laws the resolver obeys, stated over the mathematical model and
//! proved once and for all.  The executable functions' contracts tie every
//! result to that model, so these laws carry over to every call.

use vstd::prelude::*;
use vstd::std_specs::cmp::PartialEqSpec;

use crate::config::{disabled_spec, resolve_spec, FsConfig, UserView};
use crate::filter::patterns_of_env;
use crate::filter::VecOrSingle;
use crate::mode::FsModeConfig;
use crate::source::EnvView;

verus! {

/// Precedence law: a field the user set explicitly resolves to exactly
/// that explicit value, whatever the environment holds.  An explicit mode
/// also means no environment knob is parsed, so resolution cannot fail
/// then.
pub proof fn lemma_precedence(user: UserView, env: EnvView)
    ensures
        user.mode matches Some(m) ==> (resolve_spec(user, env) matches Ok(c) && c.mode == m),
        user.includes matches Some(ps) ==> (resolve_spec(user, env) matches Ok(c)
            ==> c.includes == Some(ps)),
        user.exclude matches Some(ps) ==> (resolve_spec(user, env) matches Ok(c) ==> c.exclude
            == Some(ps)),
{
}

/// Default law: a field with neither an explicit value nor its environment
/// variable set resolves to the documented static default — the mode to
/// [`FsModeConfig::Read`], each filter to absent.
pub proof fn lemma_default(user: UserView, env: EnvView)
    ensures
        user.mode is None && env.file_ops is None && env.ro_file_ops is None ==> (resolve_spec(
            user,
            env,
        ) matches Ok(c) && c.mode == FsModeConfig::Read),
        user.includes is None && env.filter_include is None ==> (resolve_spec(user, env) matches Ok(
            c,
        ) ==> c.includes is None),
        user.exclude is None && env.filter_exclude is None ==> (resolve_spec(user, env) matches Ok(
            c,
        ) ==> c.exclude is None),
{
}

/// Idempotence: resolution is a pure function of the user configuration
/// and the environment snapshot, so resolving the same configuration twice
/// under an unchanged snapshot yields equal results.
pub proof fn lemma_idempotent(user1: UserView, env1: EnvView, user2: UserView, env2: EnvView)
    requires
        user1 == user2,
        env1 == env2,
    ensures
        resolve_spec(user1, env1) == resolve_spec(user2, env2),
{
}

/// Equal models mean structural equality: [`FsConfig`]'s `==` compares
/// exactly the model, so two resolutions with equal models are equal
/// values to every caller.
pub proof fn lemma_structural_eq(c1: FsConfig, c2: FsConfig)
    ensures
        c1.eq_spec(&c2) <==> c1@ == c2@,
{
}

/// Disable law: the disable path always yields the disabled mode — which
/// permits neither reads nor writes — whatever the environment holds,
/// while each filter still reflects its environment variable when that is
/// set.
pub proof fn lemma_disabled(env: EnvView)
    ensures
        disabled_spec(env).mode == FsModeConfig::Disabled,
        !disabled_spec(env).mode.spec_is_read(),
        !disabled_spec(env).mode.spec_is_write(),
        env.filter_include matches Some(s) ==> disabled_spec(env).includes == Some(
            patterns_of_env(s),
        ),
        env.filter_include is None ==> disabled_spec(env).includes is None,
        env.filter_exclude matches Some(s) ==> disabled_spec(env).exclude == Some(
            patterns_of_env(s),
        ),
        env.filter_exclude is None ==> disabled_spec(env).exclude is None,
{
}

/// Scalar/sequence normalization: a single scalar pattern and the
/// one-element sequence holding the same pattern normalize to the same
/// model, so the two spellings resolve identically.
pub proof fn lemma_scalar_sequence(s: String, v: Vec<String>)
    requires
        v@ == seq![s],
    ensures
        VecOrSingle::Single(s)@ == VecOrSingle::Multiple(v)@,
{
    assert(VecOrSingle::Multiple(v)@ =~= seq![s@]);
}

/// Empty-string-as-set: an environment filter variable set to the empty
/// string resolves to a present-but-empty pattern set, distinct from the
/// absent set an unset variable yields.
pub proof fn lemma_empty_string_env(user: UserView, env: EnvView)
    requires
        user.includes is None,
        env.filter_include == Some(Seq::<char>::empty()),
    ensures
        resolve_spec(user, env) matches Ok(c) ==> c.includes == Some(Seq::<Seq<char>>::empty()),
        resolve_spec(user, env) matches Ok(c) ==> c.includes != None::<Seq<Seq<char>>>,
{
}

} // verus!
