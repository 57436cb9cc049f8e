//! A declarative pipeline runner: a configuration lists workflow steps, and
//! the runner executes them in order, threading each step's output into the
//! parameters of the next through a variable-resolution layer.
//!
//! The crate holds the execution core: the string map and two-tier run
//! context, the `${NAME}` placeholder resolver, the step descriptors and
//! registry, and the orchestrator that drives a run step by step. Step side
//! effects (network requests, spawned processes, downloads) are performed by
//! the embedding program, which asks the orchestrator what to run next and
//! hands the step's output back.

mod command;
mod context;
mod decompress;
mod download;
mod echo;
mod errors;
mod gist;
mod http;
mod parser;
mod payload;
mod pipeline;
mod registry;
mod strmap;
mod util;
mod wechat;
mod workflow;

pub use command::{bool_flag, Command};
pub use context::{lemma_two_tier_precedence, Context};
pub use decompress::Decompress;
pub use download::Download;
pub use echo::Echo;
pub use errors::PipelineError;
pub use gist::Gist;
pub use http::Http;
pub use parser::{fulfill, has_placeholder, lemma_resolve_identity, resolve_seq};
pub use payload::{param_value, Payload};
pub use pipeline::{
    build_payload, lemma_build_payload_err, make_workflow, Config, Runner, WorkflowConfig,
};
pub use registry::{registry_map_of, Registry};
pub use strmap::StrMap;
pub use util::{eq_ignore_ascii_case, lower_seq};
pub use wechat::WeChat;
pub use workflow::{str_views, SupportedWorkflows};
