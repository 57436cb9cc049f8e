//! The fixed-value step: its output is its own `text` parameter. It has no
//! real-world side effect, so its execute operation lives here in full.

use vstd::prelude::*;

use crate::payload::{param_value, Payload};
use crate::strmap::StrMap;
use crate::workflow::str_views;

verus! {

/// The echo step: repeats its `text` parameter as its `text` output.
#[derive(Clone, Copy, Debug, PartialEq, Eq, Structural)]
pub struct Echo {}

impl Echo {
    pub open spec fn param_names() -> Seq<Seq<char>> {
        seq!["text"@]
    }

    pub open spec fn output_names() -> Seq<Seq<char>> {
        seq!["text"@]
    }

    pub fn parameters(&self) -> (r: Vec<&'static str>)
        ensures
            str_views(r@) == Echo::param_names(),
    {
        let r = vec!["text"];
        proof {
            assert(str_views(r@) =~= Echo::param_names());
        }
        r
    }

    pub fn outputs(&self) -> (r: Vec<&'static str>)
        ensures
            str_views(r@) == Echo::output_names(),
    {
        let r = vec!["text"];
        proof {
            assert(str_views(r@) =~= Echo::output_names());
        }
        r
    }

    /// Runs the step: the output payload holds exactly the declared `text`
    /// key, bound to the resolved `text` parameter (the empty string when
    /// the configuration declared none). The step cannot fail.
    pub fn execute(&self, input: &Payload) -> (r: Payload)
        ensures
            r@ == Map::<Seq<char>, Seq<char>>::empty().insert(
                "text"@,
                param_value(input@, "text"@),
            ),
    {
        let text = input.parameter("text");
        let mut m = StrMap::new();
        m.insert(String::from_str("text"), String::from_str(text));
        Payload::new(m)
    }
}

} // verus!
