//! The step contract and the closed set of step variants.
//!
//! Every step exposes a fixed, ordered list of parameter names it consumes
//! and output names it promises to populate. The orchestrator treats the
//! variants uniformly through `SupportedWorkflows`; the real-world side
//! effect of each variant (one request, one process, one download) is
//! performed by the embedding program, which only the echo step does not
//! need, its effect being the pure computation `Echo::execute`.

use vstd::prelude::*;

use crate::command::Command;
use crate::decompress::Decompress;
use crate::download::Download;
use crate::echo::Echo;
use crate::gist::Gist;
use crate::http::Http;
use crate::wechat::WeChat;

verus! {

/// The views of a list of string slices.
pub open spec fn str_views(s: Seq<&str>) -> Seq<Seq<char>> {
    s.map_values(|x: &str| x@)
}

/// The closed set of step implementations. The variant set is fixed at build
/// time, so dispatch is a match rather than dynamic.
#[derive(Clone, Copy, Debug, PartialEq, Eq, Structural)]
pub enum SupportedWorkflows {
    Http(Http),
    Gist(Gist),
    Echo(Echo),
    WeChat(WeChat),
    Command(Command),
    Download(Download),
    Decompress(Decompress),
}

impl SupportedWorkflows {
    /// The parameter names the variant consumes, in declaration order.
    pub open spec fn param_names(self) -> Seq<Seq<char>> {
        match self {
            SupportedWorkflows::Http(_) => Http::param_names(),
            SupportedWorkflows::Gist(_) => Gist::param_names(),
            SupportedWorkflows::Echo(_) => Echo::param_names(),
            SupportedWorkflows::WeChat(_) => WeChat::param_names(),
            SupportedWorkflows::Command(_) => Command::param_names(),
            SupportedWorkflows::Download(_) => Download::param_names(),
            SupportedWorkflows::Decompress(_) => Decompress::param_names(),
        }
    }

    /// The output names the variant promises to populate.
    pub open spec fn output_names(self) -> Seq<Seq<char>> {
        match self {
            SupportedWorkflows::Http(_) => Http::output_names(),
            SupportedWorkflows::Gist(_) => Gist::output_names(),
            SupportedWorkflows::Echo(_) => Echo::output_names(),
            SupportedWorkflows::WeChat(_) => WeChat::output_names(),
            SupportedWorkflows::Command(_) => Command::output_names(),
            SupportedWorkflows::Download(_) => Download::output_names(),
            SupportedWorkflows::Decompress(_) => Decompress::output_names(),
        }
    }

    /// The fixed parameter-name list of the variant.
    pub fn parameters(&self) -> (r: Vec<&'static str>)
        ensures
            str_views(r@) == self.param_names(),
    {
        match self {
            SupportedWorkflows::Http(w) => w.parameters(),
            SupportedWorkflows::Gist(w) => w.parameters(),
            SupportedWorkflows::Echo(w) => w.parameters(),
            SupportedWorkflows::WeChat(w) => w.parameters(),
            SupportedWorkflows::Command(w) => w.parameters(),
            SupportedWorkflows::Download(w) => w.parameters(),
            SupportedWorkflows::Decompress(w) => w.parameters(),
        }
    }

    /// The fixed output-name list of the variant.
    pub fn outputs(&self) -> (r: Vec<&'static str>)
        ensures
            str_views(r@) == self.output_names(),
    {
        match self {
            SupportedWorkflows::Http(w) => w.outputs(),
            SupportedWorkflows::Gist(w) => w.outputs(),
            SupportedWorkflows::Echo(w) => w.outputs(),
            SupportedWorkflows::WeChat(w) => w.outputs(),
            SupportedWorkflows::Command(w) => w.outputs(),
            SupportedWorkflows::Download(w) => w.outputs(),
            SupportedWorkflows::Decompress(w) => w.outputs(),
        }
    }
}

} // verus!
