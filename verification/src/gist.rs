//! The paste-publishing step: publishes one snippet and reports where it
//! landed. The upload is done by the embedding program; this module owns the
//! step's descriptor.

use vstd::prelude::*;

use crate::workflow::str_views;

verus! {

/// The snippet-publishing step.
#[derive(Clone, Copy, Debug, PartialEq, Eq, Structural)]
pub struct Gist {}

impl Gist {
    /// The `content` to publish.
    pub open spec fn param_names() -> Seq<Seq<char>> {
        seq!["content"@]
    }

    /// The `url` the snippet was published under.
    pub open spec fn output_names() -> Seq<Seq<char>> {
        seq!["url"@]
    }

    pub fn parameters(&self) -> (r: Vec<&'static str>)
        ensures
            str_views(r@) == Gist::param_names(),
    {
        let r = vec!["content"];
        proof {
            assert(str_views(r@) =~= Gist::param_names());
        }
        r
    }

    pub fn outputs(&self) -> (r: Vec<&'static str>)
        ensures
            str_views(r@) == Gist::output_names(),
    {
        let r = vec!["url"];
        proof {
            assert(str_views(r@) =~= Gist::output_names());
        }
        r
    }
}

} // verus!
