//! The archive-decompression step: expands one archive in place. The
//! expansion is done by the embedding program; this module owns the step's
//! descriptor.

use vstd::prelude::*;

use crate::workflow::str_views;

verus! {

/// The decompression step. It declares no outputs.
#[derive(Clone, Copy, Debug, PartialEq, Eq, Structural)]
pub struct Decompress {}

impl Decompress {
    /// The `path` of the archive to expand.
    pub open spec fn param_names() -> Seq<Seq<char>> {
        seq!["path"@]
    }

    pub open spec fn output_names() -> Seq<Seq<char>> {
        Seq::empty()
    }

    pub fn parameters(&self) -> (r: Vec<&'static str>)
        ensures
            str_views(r@) == Decompress::param_names(),
    {
        let r = vec!["path"];
        proof {
            assert(str_views(r@) =~= Decompress::param_names());
        }
        r
    }

    pub fn outputs(&self) -> (r: Vec<&'static str>)
        ensures
            str_views(r@) == Decompress::output_names(),
    {
        let r = Vec::new();
        proof {
            assert(str_views(r@) =~= Decompress::output_names());
        }
        r
    }
}

} // verus!
