//! The messaging step: sends one notification message. The delivery is done
//! by the embedding program; this module owns the step's descriptor.

use vstd::prelude::*;

use crate::workflow::str_views;

verus! {

/// The message-sending step. It declares no outputs.
#[derive(Clone, Copy, Debug, PartialEq, Eq, Structural)]
pub struct WeChat {}

impl WeChat {
    /// The `text` of the message to send.
    pub open spec fn param_names() -> Seq<Seq<char>> {
        seq!["text"@]
    }

    pub open spec fn output_names() -> Seq<Seq<char>> {
        Seq::empty()
    }

    pub fn parameters(&self) -> (r: Vec<&'static str>)
        ensures
            str_views(r@) == WeChat::param_names(),
    {
        let r = vec!["text"];
        proof {
            assert(str_views(r@) =~= WeChat::param_names());
        }
        r
    }

    pub fn outputs(&self) -> (r: Vec<&'static str>)
        ensures
            str_views(r@) == WeChat::output_names(),
    {
        let r = Vec::new();
        proof {
            assert(str_views(r@) =~= WeChat::output_names());
        }
        r
    }
}

} // verus!
