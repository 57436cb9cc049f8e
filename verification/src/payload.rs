//! The payloads exchanged with a step: the resolved parameters handed to its
//! execute operation, and the outputs it returns.

use vstd::prelude::*;

use crate::strmap::StrMap;

verus! {

/// A parameter or output payload: a string-to-string mapping created fresh
/// for one step invocation.
#[derive(Debug)]
pub struct Payload {
    parameters: StrMap,
}

/// The value a payload yields for a key: the bound value, or the empty
/// string for a key the payload does not hold.
pub open spec fn param_value(m: Map<Seq<char>, Seq<char>>, key: Seq<char>) -> Seq<char> {
    if m.dom().contains(key) {
        m[key]
    } else {
        Seq::empty()
    }
}

impl View for Payload {
    type V = Map<Seq<char>, Seq<char>>;

    closed spec fn view(&self) -> Map<Seq<char>, Seq<char>> {
        self.parameters@
    }
}

impl Payload {
    /// Wraps a resolved parameter mapping.
    pub fn new(parameters: StrMap) -> (r: Self)
        ensures
            r@ == parameters@,
    {
        Payload { parameters }
    }

    /// The value declared for `key`, defaulting to the empty string when the
    /// payload holds no entry for it.
    pub fn parameter<'a>(&'a self, key: &str) -> (r: &'a str)
        ensures
            r@ == param_value(self@, key@),
    {
        match self.parameters.get(key) {
            Some(v) => v.as_str(),
            None => {
                proof {
                    reveal_strlit("");
                    assert(""@ =~= Seq::<char>::empty());
                }
                ""
            },
        }
    }

    /// Hands the underlying mapping back, for merging into the run context.
    pub fn into_parameters(self) -> (r: StrMap)
        ensures
            r@ == self@,
    {
        self.parameters
    }
}

} // verus!
