//! The orchestrator: drives the ordered list of configured steps to
//! completion or first failure.
//!
//! For each step in order it looks the implementation up in the registry,
//! resolves the declared parameters against the current run context, and
//! hands the caller the implementation and its payload. The caller performs
//! the step's side effect and reports the output back, which replaces the
//! context's last-output tier wholesale. The first lookup or resolution
//! failure aborts the run: no later step is ever handed out, and nothing is
//! rolled back.

use vstd::prelude::*;

use crate::context::Context;
use crate::errors::PipelineError;
use crate::parser::{fulfill, resolve_seq};
use crate::payload::Payload;
use crate::registry::Registry;
use crate::strmap::StrMap;
use crate::util::lower_seq;
use crate::workflow::{str_views, SupportedWorkflows};

verus! {

/// One configured step: its type name, matched case-insensitively against
/// the registry, and its raw, possibly placeholder-bearing parameters.
#[derive(Debug)]
pub struct WorkflowConfig {
    pub workflow_type: String,
    pub parameters: StrMap,
}

/// An ordered pipeline configuration. The order is the execution order.
#[derive(Debug)]
pub struct Config {
    pub workflows: Vec<WorkflowConfig>,
}

/// What resolving the declared parameters of a step yields: for each
/// declared name in order, a configured raw value is resolved against the
/// namespace; names the configuration does not mention are omitted, not
/// defaulted. The result is the payload mapping, or the first undefined
/// variable hit.
pub open spec fn build_payload(
    names: Seq<Seq<char>>,
    raw: Map<Seq<char>, Seq<char>>,
    vars: Map<Seq<char>, Seq<char>>,
) -> Result<Map<Seq<char>, Seq<char>>, Seq<char>>
    decreases names.len(),
{
    if names.len() == 0 {
        Ok(Map::empty())
    } else {
        match build_payload(names.drop_last(), raw, vars) {
            Err(m) => Err(m),
            Ok(p) => {
                let n = names.last();
                if raw.dom().contains(n) {
                    match resolve_seq(raw[n], vars) {
                        Err(m) => Err(m),
                        Ok(v) => Ok(p.insert(n, v)),
                    }
                } else {
                    Ok(p)
                }
            },
        }
    }
}

/// A failure while building the payload of a prefix of the declared names is
/// the failure of the whole list.
proof fn lemma_build_payload_prefix_err(
    names: Seq<Seq<char>>,
    i: int,
    raw: Map<Seq<char>, Seq<char>>,
    vars: Map<Seq<char>, Seq<char>>,
)
    requires
        0 <= i <= names.len(),
        build_payload(names.take(i), raw, vars) is Err,
    ensures
        build_payload(names, raw, vars) == build_payload(names.take(i), raw, vars),
    decreases names.len() - i,
{
    if i == names.len() {
        assert(names.take(i) =~= names);
    } else {
        assert(names.take(i + 1).drop_last() =~= names.take(i));
        assert(names.take(i + 1).last() == names[i]);
        lemma_build_payload_prefix_err(names, i + 1, raw, vars);
    }
}

/// A step one of whose declared, configured parameter values fails to
/// resolve never yields a payload: building the payload reports an undefined
/// variable, whichever parameter hit it.
pub proof fn lemma_build_payload_err(
    names: Seq<Seq<char>>,
    raw: Map<Seq<char>, Seq<char>>,
    vars: Map<Seq<char>, Seq<char>>,
    idx: int,
)
    requires
        0 <= idx < names.len(),
        raw.dom().contains(names[idx]),
        resolve_seq(raw[names[idx]], vars) is Err,
    ensures
        build_payload(names, raw, vars) is Err,
    decreases names.len(),
{
    if idx < names.len() - 1 {
        assert(names.drop_last()[idx] == names[idx]);
        lemma_build_payload_err(names.drop_last(), raw, vars, idx);
    } else {
        assert(names.last() == names[idx]);
    }
}

/// Looks the configured step up in the registry and resolves its declared
/// parameters against the run context.
///
/// The result is exact in every case: success yields the registered
/// implementation and the resolved payload; an unregistered type name yields
/// that name back; an undefined variable in a parameter of a registered step
/// yields the first such variable.
pub fn make_workflow<'a>(
    registry: &'a Registry,
    config: &WorkflowConfig,
    context: &Context,
) -> (r: Result<(&'a SupportedWorkflows, Payload), PipelineError>)
    ensures
        match r {
            Ok((w, p)) => {
                &&& registry@.dom().contains(lower_seq(config.workflow_type@))
                &&& *w == registry@[lower_seq(config.workflow_type@)]
                &&& build_payload(w.param_names(), config.parameters@, context.vars())
                    == Ok::<Map<Seq<char>, Seq<char>>, Seq<char>>(p@)
            },
            Err(PipelineError::UnknownWorkflow(t)) => {
                &&& !registry@.dom().contains(lower_seq(config.workflow_type@))
                &&& t@ == config.workflow_type@
            },
            Err(PipelineError::MissingVariable(v)) => {
                &&& registry@.dom().contains(lower_seq(config.workflow_type@))
                &&& build_payload(
                    registry@[lower_seq(config.workflow_type@)].param_names(),
                    config.parameters@,
                    context.vars(),
                ) == Err::<Map<Seq<char>, Seq<char>>, Seq<char>>(v@)
            },
        },
{
    let workflow = match registry.lookup(config.workflow_type.as_str()) {
        Some(w) => w,
        None => {
            return Err(PipelineError::UnknownWorkflow(config.workflow_type.clone()));
        },
    };
    let names = workflow.parameters();
    let ghost sv = str_views(names@);
    let n = names.len();
    let mut payload = StrMap::new();
    let mut idx: usize = 0;
    proof {
        assert(sv.take(0) =~= Seq::<Seq<char>>::empty());
    }
    while idx < n
        invariant
            idx <= n,
            n == names@.len(),
            sv == str_views(names@),
            sv == workflow.param_names(),
            registry@.dom().contains(lower_seq(config.workflow_type@)),
            *workflow == registry@[lower_seq(config.workflow_type@)],
            build_payload(sv.take(idx as int), config.parameters@, context.vars())
                == Ok::<Map<Seq<char>, Seq<char>>, Seq<char>>(payload@),
        decreases n - idx,
    {
        proof {
            assert(sv.take(idx + 1).drop_last() =~= sv.take(idx as int));
            assert(sv.take(idx + 1).last() == sv[idx as int]);
            assert(sv[idx as int] == names@[idx as int]@);
        }
        let key = names[idx];
        match config.parameters.get(key) {
            Some(raw_value) => {
                match fulfill(raw_value.as_str(), context) {
                    Ok(resolved) => {
                        payload.insert(String::from_str(key), resolved);
                    },
                    Err(e) => {
                        proof {
                            assert(config.parameters@.dom().contains(sv[idx as int]));
                            assert(config.parameters@[sv[idx as int]] == raw_value@);
                            match &e {
                                PipelineError::MissingVariable(v) => {
                                    assert(resolve_seq(raw_value@, context.vars())
                                        == Err::<Seq<char>, Seq<char>>(v@));
                                    assert(build_payload(
                                        sv.take(idx + 1),
                                        config.parameters@,
                                        context.vars(),
                                    ) == Err::<Map<Seq<char>, Seq<char>>, Seq<char>>(v@));
                                },
                                PipelineError::UnknownWorkflow(_) => {
                                    assert(false);
                                },
                            }
                            lemma_build_payload_prefix_err(
                                sv,
                                idx + 1,
                                config.parameters@,
                                context.vars(),
                            );
                        }
                        return Err(e);
                    },
                }
            },
            None => {},
        }
        idx += 1;
    }
    proof {
        assert(sv.take(n as int) =~= sv);
    }
    Ok((workflow, Payload::new(payload)))
}

/// The state of one pipeline run: the registry, the configuration, the run
/// context, and the position of the next step to run. A run proceeds
/// strictly in configuration order: the step at the cursor is handed out by
/// `next_workflow`, and the cursor moves only when `record_output` reports
/// that the step's execute operation has returned.
#[derive(Debug)]
pub struct Runner {
    registry: Registry,
    config: Config,
    context: Context,
    index: usize,
}

impl Runner {
    /// The configured steps, in execution order.
    pub closed spec fn steps(&self) -> Seq<WorkflowConfig> {
        self.config.workflows@
    }

    /// The registry the run resolves type names against.
    pub closed spec fn registry_map(&self) -> Map<Seq<char>, SupportedWorkflows> {
        self.registry@
    }

    /// The environment tier of the run context.
    pub closed spec fn env_map(&self) -> Map<Seq<char>, Seq<char>> {
        self.context.env_map()
    }

    /// The last-output tier of the run context.
    pub closed spec fn last_output(&self) -> Map<Seq<char>, Seq<char>> {
        self.context.last_output()
    }

    /// The namespace the next step's parameters resolve against.
    pub open spec fn vars(&self) -> Map<Seq<char>, Seq<char>> {
        self.env_map().union_prefer_right(self.last_output())
    }

    /// The position of the next step to run: every earlier step has
    /// returned, and no later step has begun.
    pub closed spec fn cursor(&self) -> int {
        self.index as int
    }

    /// Starts a run over `config`: the cursor at the first step, the given
    /// environment snapshot, and no prior output.
    pub fn new(registry: Registry, config: Config, env: StrMap) -> (r: Self)
        ensures
            r.steps() == config.workflows@,
            r.registry_map() == registry@,
            r.env_map() == env@,
            r.last_output() == Map::<Seq<char>, Seq<char>>::empty(),
            r.cursor() == 0,
    {
        Runner { registry, config, context: Context::new(env), index: 0 }
    }

    /// Prepares the step at the cursor: `Ok(None)` when every step has run
    /// and the run has succeeded; otherwise the step's implementation and
    /// resolved payload, or the error that aborts the run. Nothing is handed
    /// out for any step past the cursor, and an error leaves the run where
    /// it stands: resolution failures and unknown type names surface at the
    /// step that declares them, never earlier and never later.
    pub fn next_workflow(&self) -> (r: Result<
        Option<(SupportedWorkflows, Payload)>,
        PipelineError,
    >)
        ensures
            self.cursor() >= self.steps().len() ==> r matches Ok(None),
            self.cursor() < self.steps().len() ==> {
                let step = self.steps()[self.cursor()];
                let key = lower_seq(step.workflow_type@);
                match r {
                    Ok(Some((w, p))) => {
                        &&& self.registry_map().dom().contains(key)
                        &&& w == self.registry_map()[key]
                        &&& build_payload(w.param_names(), step.parameters@, self.vars())
                            == Ok::<Map<Seq<char>, Seq<char>>, Seq<char>>(p@)
                    },
                    Ok(None) => false,
                    Err(PipelineError::UnknownWorkflow(t)) => {
                        &&& !self.registry_map().dom().contains(key)
                        &&& t@ == step.workflow_type@
                    },
                    Err(PipelineError::MissingVariable(v)) => {
                        &&& self.registry_map().dom().contains(key)
                        &&& build_payload(
                            self.registry_map()[key].param_names(),
                            step.parameters@,
                            self.vars(),
                        ) == Err::<Map<Seq<char>, Seq<char>>, Seq<char>>(v@)
                    },
                }
            },
    {
        if self.index >= self.config.workflows.len() {
            return Ok(None);
        }
        let step = &self.config.workflows[self.index];
        match make_workflow(&self.registry, step, &self.context) {
            Ok((w, p)) => Ok(Some((*w, p))),
            Err(e) => Err(e),
        }
    }

    /// Reports that the step at the cursor has returned `output`. The
    /// last-output tier is replaced wholesale — it then holds exactly the
    /// keys the step returned, and nothing of any earlier step survives —
    /// and the cursor moves to the next step. The registry, the
    /// configuration and the environment are untouched.
    pub fn record_output(&mut self, output: Payload)
        requires
            old(self).cursor() < old(self).steps().len(),
        ensures
            final(self).steps() == old(self).steps(),
            final(self).registry_map() == old(self).registry_map(),
            final(self).env_map() == old(self).env_map(),
            final(self).last_output() == output@,
            final(self).cursor() == old(self).cursor() + 1,
    {
        let n = self.config.workflows.len();
        proof {
            assert(self.index < n);
        }
        self.context.replace_last_output(output.into_parameters());
        self.index = self.index + 1;
    }
}

} // verus!
