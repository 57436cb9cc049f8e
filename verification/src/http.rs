//! The network-request step: issues one blocking HTTP request and reports
//! the response's status code and body text. The request itself is done by
//! the embedding program; this module owns the step's descriptor and the
//! packaging of the response into an output payload.

use vstd::prelude::*;

use crate::payload::Payload;
use crate::strmap::StrMap;
use crate::workflow::str_views;

verus! {

/// The HTTP-request step.
#[derive(Clone, Copy, Debug, PartialEq, Eq, Structural)]
pub struct Http {}

impl Http {
    /// `url` to request and HTTP `method` to use.
    pub open spec fn param_names() -> Seq<Seq<char>> {
        seq!["url"@, "method"@]
    }

    /// `status_code` and the response `text`.
    pub open spec fn output_names() -> Seq<Seq<char>> {
        seq!["status_code"@, "text"@]
    }

    pub fn parameters(&self) -> (r: Vec<&'static str>)
        ensures
            str_views(r@) == Http::param_names(),
    {
        let r = vec!["url", "method"];
        proof {
            assert(str_views(r@) =~= Http::param_names());
        }
        r
    }

    pub fn outputs(&self) -> (r: Vec<&'static str>)
        ensures
            str_views(r@) == Http::output_names(),
    {
        let r = vec!["status_code", "text"];
        proof {
            assert(str_views(r@) =~= Http::output_names());
        }
        r
    }

    /// Packages a response into the step's output payload: exactly the two
    /// declared keys, bound to the given status code and body text.
    pub fn make_output(status_code: String, text: String) -> (r: Payload)
        ensures
            r@ == Map::<Seq<char>, Seq<char>>::empty().insert("status_code"@, status_code@).insert(
                "text"@,
                text@,
            ),
    {
        let mut m = StrMap::new();
        m.insert(String::from_str("status_code"), status_code);
        m.insert(String::from_str("text"), text);
        Payload::new(m)
    }
}

} // verus!
