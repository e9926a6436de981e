//! The filter pair: optional include and exclude pattern sets.
//!
//! A pattern set is an ordered sequence of string patterns.  At the input
//! boundary it is normalized from either a single scalar string or a
//! sequence of strings (a scalar counts as a one-element sequence).  From
//! the environment it is parsed from one string: the empty string yields a
//! present-but-empty set, and any other value is split on `','` into its
//! comma-separated pieces.  Pattern syntax is not validated here; that is
//! the matching engine's concern.
//!
//! Include and exclude are resolved independently, each with the usual
//! explicit > environment > default-absent precedence, and both may be
//! present at once: this layer carries the pair through unchanged and
//! never drops one in favour of the other.

use vstd::prelude::*;

use crate::source::{optional_precedence, resolve_optional};

verus! {

/// A user-authored pattern field: either one pattern or a sequence of
/// patterns.  Its view is the normalized sequence, so a scalar and the
/// one-element sequence with the same content have equal views.
#[derive(Debug, Clone)]
pub enum VecOrSingle {
    Single(String),
    Multiple(Vec<String>),
}

impl View for VecOrSingle {
    type V = Seq<Seq<char>>;

    open spec fn view(&self) -> Seq<Seq<char>> {
        match self {
            VecOrSingle::Single(s) => seq![s@],
            VecOrSingle::Multiple(v) => v.deep_view(),
        }
    }
}

/// A resolved, normalized pattern set: an ordered sequence of patterns.
#[derive(Debug, Clone)]
pub struct PatternSet {
    pub patterns: Vec<String>,
}

impl View for PatternSet {
    type V = Seq<Seq<char>>;

    open spec fn view(&self) -> Seq<Seq<char>> {
        self.patterns.deep_view()
    }
}

/// The view of an optional pattern set.
pub open spec fn opt_patterns_view(o: Option<PatternSet>) -> Option<Seq<Seq<char>>> {
    match o {
        Some(p) => Some(p@),
        None => None,
    }
}

/// The view of an optional user-authored pattern field.
pub open spec fn opt_vos_view(o: Option<VecOrSingle>) -> Option<Seq<Seq<char>>> {
    match o {
        Some(v) => Some(v@),
        None => None,
    }
}

/// One left-to-right step of splitting on `','`: `acc` holds the finished
/// pieces, `cur` the piece being read, and `rest` the characters still to
/// come.
pub open spec fn split_step(acc: Seq<Seq<char>>, cur: Seq<char>, rest: Seq<char>) -> Seq<
    Seq<char>,
>
    decreases rest.len(),
{
    if rest.len() == 0 {
        acc.push(cur)
    } else if rest[0] == ',' {
        split_step(acc.push(cur), Seq::empty(), rest.drop_first())
    } else {
        split_step(acc, cur.push(rest[0]), rest.drop_first())
    }
}

/// The comma-separated pieces of `s`, in order.  A string without a comma
/// is one piece; each comma ends a piece, so adjacent commas and commas at
/// either end produce empty pieces.
pub open spec fn split_commas(s: Seq<char>) -> Seq<Seq<char>> {
    split_step(Seq::empty(), Seq::empty(), s)
}

/// How an environment value parses into a pattern set: the empty string is
/// the empty set (the variable was set, so the set is present, just empty),
/// and any other value is its comma-separated pieces.
pub open spec fn patterns_of_env(s: Seq<char>) -> Seq<Seq<char>> {
    if s.len() == 0 {
        Seq::empty()
    } else {
        split_commas(s)
    }
}

/// How one filter field resolves: the normalized explicit value if present
/// — the environment is not consulted in that case — else the parsed
/// environment value if the variable is set, else absent.
pub open spec fn filter_resolve_spec(
    explicit: Option<Seq<Seq<char>>>,
    env_value: Option<Seq<char>>,
) -> Option<Seq<Seq<char>>> {
    optional_precedence(
        explicit,
        match env_value {
            Some(s) => Some(patterns_of_env(s)),
            None => None,
        },
    )
}

impl VecOrSingle {
    /// Normalize to a pattern set: a scalar becomes a one-element sequence.
    pub fn into_pattern_set(self) -> (r: PatternSet)
        ensures
            r@ == self@,
    {
        match self {
            VecOrSingle::Single(s) => {
                let ghost gs = s;
                let mut patterns: Vec<String> = Vec::new();
                patterns.push(s);
                proof {
                    assert(patterns.deep_view() =~= seq![gs@]);
                }
                PatternSet { patterns }
            },
            VecOrSingle::Multiple(v) => PatternSet { patterns: v },
        }
    }
}

impl PatternSet {
    /// Parse an environment variable's value, per [`patterns_of_env`].
    pub fn parse_env(s: &str) -> (r: PatternSet)
        ensures
            r@ == patterns_of_env(s@),
    {
        let n = s.unicode_len();
        if n == 0 {
            let patterns: Vec<String> = Vec::new();
            proof {
                assert(patterns.deep_view() =~= Seq::<Seq<char>>::empty());
            }
            return PatternSet { patterns };
        }
        let mut pieces: Vec<String> = Vec::new();
        let mut cur: String = String::new();
        let mut i: usize = 0;
        proof {
            assert(pieces.deep_view() =~= Seq::<Seq<char>>::empty());
            assert(s@.skip(0) =~= s@);
        }
        while i < n
            invariant
                n == s@.len(),
                i <= n,
                split_commas(s@) == split_step(pieces.deep_view(), cur@, s@.skip(i as int)),
            decreases n - i,
        {
            proof {
                assert(s@.skip(i as int).len() > 0);
                assert(s@.skip(i as int)[0] == s@[i as int]);
                assert(s@.skip(i as int).drop_first() =~= s@.skip(i as int + 1));
            }
            let c = s.get_char(i);
            if c == ',' {
                let ghost old_pieces = pieces.deep_view();
                let ghost old_cur = cur@;
                pieces.push(cur);
                cur = String::new();
                proof {
                    assert(pieces.deep_view() =~= old_pieces.push(old_cur));
                }
            } else {
                let ghost old_cur = cur@;
                let piece = s.substring_char(i, i + 1);
                cur.append(piece);
                proof {
                    assert(cur@ =~= old_cur.push(s@[i as int]));
                }
            }
            i = i + 1;
        }
        proof {
            assert(s@.skip(n as int) =~= Seq::<char>::empty());
        }
        pieces.push(cur);
        proof {
            assert(pieces.deep_view() =~= split_commas(s@));
        }
        PatternSet { patterns: pieces }
    }
}

/// Resolve one filter field from its explicit user value and the value of
/// its environment variable, per [`filter_resolve_spec`].
pub fn resolve_filter(explicit: Option<VecOrSingle>, env_value: &Option<String>) -> (r: Option<
    PatternSet,
>)
    ensures
        opt_patterns_view(r) == filter_resolve_spec(opt_vos_view(explicit), env_value.deep_view()),
{
    let explicit_set: Option<PatternSet> = match explicit {
        Some(v) => Some(v.into_pattern_set()),
        None => None,
    };
    let env_set: Option<PatternSet> = match env_value {
        Some(s) => Some(PatternSet::parse_env(s.as_str())),
        None => None,
    };
    resolve_optional(explicit_set, env_set)
}

} // verus!
