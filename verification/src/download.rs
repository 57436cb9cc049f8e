//! The file-download step: fetches one file and stores it locally. The
//! transfer is done by the embedding program; this module owns the step's
//! descriptor.

use vstd::prelude::*;

use crate::workflow::str_views;

verus! {

/// The download step.
#[derive(Clone, Copy, Debug, PartialEq, Eq, Structural)]
pub struct Download {}

impl Download {
    /// The `url` to fetch and the `path` to store the file under.
    pub open spec fn param_names() -> Seq<Seq<char>> {
        seq!["url"@, "path"@]
    }

    /// The `path` the file was stored under.
    pub open spec fn output_names() -> Seq<Seq<char>> {
        seq!["path"@]
    }

    pub fn parameters(&self) -> (r: Vec<&'static str>)
        ensures
            str_views(r@) == Download::param_names(),
    {
        let r = vec!["url", "path"];
        proof {
            assert(str_views(r@) =~= Download::param_names());
        }
        r
    }

    pub fn outputs(&self) -> (r: Vec<&'static str>)
        ensures
            str_views(r@) == Download::output_names(),
    {
        let r = vec!["path"];
        proof {
            assert(str_views(r@) =~= Download::output_names());
        }
        r
    }
}

} // verus!
