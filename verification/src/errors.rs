//! The fatal errors a pipeline run can report before a step's own side effect
//! is even attempted. The first one raised anywhere aborts the whole run.

use vstd::prelude::*;

verus! {

/// Why a run was aborted by the execution core itself.
///
/// Failures of a step's real-world side effect are reported by the embedding
/// program, which simply stops driving the run; they need no variant here.
#[derive(Debug, PartialEq, Eq)]
pub enum PipelineError {
    /// The configured step type name is not present in the registry.
    UnknownWorkflow(String),
    /// A raw parameter value referenced this variable through a placeholder,
    /// and neither the last step's output nor the environment defines it.
    MissingVariable(String),
}

} // verus!
