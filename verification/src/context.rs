//! The run context: the two-tier variable namespace a pipeline run carries.
//!
//! Tier one is the output of the immediately preceding step; tier two is the
//! process environment, snapshotted once at startup. A name defined in both
//! tiers resolves to the last step's output: fresher data shadows the
//! environment. That precedence is fixed here, as the single named policy the
//! resolver consults.

use vstd::prelude::*;

use crate::strmap::StrMap;

verus! {

/// Process-wide state of one pipeline run: the immutable environment
/// snapshot and the latest step output. It is owned by the orchestrator;
/// the resolver only reads it.
#[derive(Debug)]
pub struct Context {
    env: StrMap,
    input: StrMap,
}

impl Context {
    /// The environment tier, fixed at construction.
    pub closed spec fn env_map(&self) -> Map<Seq<char>, Seq<char>> {
        self.env@
    }

    /// The last-output tier: what the most recent step returned, or the
    /// empty map before any step has run.
    pub closed spec fn last_output(&self) -> Map<Seq<char>, Seq<char>> {
        self.input@
    }

    /// The namespace placeholders resolve against: the environment,
    /// shadowed by the last step's output.
    pub open spec fn vars(&self) -> Map<Seq<char>, Seq<char>> {
        self.env_map().union_prefer_right(self.last_output())
    }

    /// Starts a run: the given environment snapshot, and no prior output.
    pub fn new(env: StrMap) -> (r: Self)
        ensures
            r.env_map() == env@,
            r.last_output() == Map::<Seq<char>, Seq<char>>::empty(),
    {
        Context { env, input: StrMap::new() }
    }

    /// Looks a variable up: first in the last step's output, then in the
    /// environment.
    pub fn lookup<'a>(&'a self, name: &str) -> (r: Option<&'a String>)
        ensures
            match r {
                Some(v) => self.vars().dom().contains(name@) && v@ == self.vars()[name@],
                None => !self.vars().dom().contains(name@),
            },
    {
        match self.input.get(name) {
            Some(v) => Some(v),
            None => self.env.get(name),
        }
    }

    /// Replaces the last-output tier wholesale with `output`: nothing of the
    /// previous step's output survives.
    pub fn replace_last_output(&mut self, output: StrMap)
        ensures
            final(self).env_map() == old(self).env_map(),
            final(self).last_output() == output@,
    {
        self.input = output;
    }
}

/// The two-tier precedence law: a name defined in the last step's output
/// resolves to that output; a name defined only in the environment falls back
/// to the environment; nothing else is defined.
pub proof fn lemma_two_tier_precedence(context: Context, name: Seq<char>)
    ensures
        context.last_output().dom().contains(name) ==> context.vars().dom().contains(name)
            && context.vars()[name] == context.last_output()[name],
        !context.last_output().dom().contains(name) && context.env_map().dom().contains(name)
            ==> context.vars().dom().contains(name) && context.vars()[name]
            == context.env_map()[name],
        context.vars().dom() =~= context.env_map().dom() + context.last_output().dom(),
{
}

} // verus!
