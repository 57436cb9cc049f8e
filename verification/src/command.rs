//! The external-process step: spawns one program, optionally detached from
//! the pipeline as a daemon, optionally inheriting the runner's standard
//! streams. The spawn itself is real-world work done by the embedding
//! program; this module owns the step's descriptor and the interpretation of
//! its boolean flags.

use vstd::prelude::*;

use crate::workflow::str_views;

verus! {

/// The process-spawning step. It declares no outputs.
#[derive(Clone, Copy, Debug, PartialEq, Eq, Structural)]
pub struct Command {}

impl Command {
    /// `program` to spawn, `daemon` and `inherit_io` flags.
    pub open spec fn param_names() -> Seq<Seq<char>> {
        seq!["program"@, "daemon"@, "inherit_io"@]
    }

    pub open spec fn output_names() -> Seq<Seq<char>> {
        Seq::empty()
    }

    pub fn parameters(&self) -> (r: Vec<&'static str>)
        ensures
            str_views(r@) == Command::param_names(),
    {
        let r = vec!["program", "daemon", "inherit_io"];
        proof {
            assert(str_views(r@) =~= Command::param_names());
        }
        r
    }

    pub fn outputs(&self) -> (r: Vec<&'static str>)
        ensures
            str_views(r@) == Command::output_names(),
    {
        let r = Vec::new();
        proof {
            assert(str_views(r@) =~= Command::output_names());
        }
        r
    }
}

/// How the step reads its `daemon` and `inherit_io` parameters: exactly the
/// string `true` switches a flag on; everything else, the empty default
/// included, leaves it off.
pub fn bool_flag(s: &str) -> (r: bool)
    ensures
        r == (s@ == "true"@),
{
    let lhs = String::from_str(s);
    let rhs = String::from_str("true");
    lhs == rhs
}

} // verus!
