//! The step registry: an explicitly constructed, immutable mapping from
//! lower-cased type name to step implementation. It is built once at startup
//! and passed by reference into the orchestrator; a substitute registry with
//! other entries can take its place in testing. Lookup is case-insensitive:
//! a key is stored folded to ASCII lowercase, and a query is folded the same
//! way before the comparison.

use vstd::prelude::*;

use crate::command::Command;
use crate::decompress::Decompress;
use crate::download::Download;
use crate::echo::Echo;
use crate::gist::Gist;
use crate::http::Http;
use crate::util::{eq_ignore_ascii_case, lower_seq};
use crate::wechat::WeChat;
use crate::workflow::SupportedWorkflows;

verus! {

/// The mapping from step type name to implementation.
#[derive(Debug)]
pub struct Registry {
    entries: Vec<(String, SupportedWorkflows)>,
}

/// The map denoted by a registry's entry list: each name is folded to ASCII
/// lowercase, and a later entry for a name shadows an earlier one.
pub open spec fn registry_map_of(entries: Seq<(String, SupportedWorkflows)>) -> Map<
    Seq<char>,
    SupportedWorkflows,
>
    decreases entries.len(),
{
    if entries.len() == 0 {
        Map::empty()
    } else {
        registry_map_of(entries.drop_last()).insert(
            lower_seq(entries.last().0@),
            entries.last().1,
        )
    }
}

impl View for Registry {
    type V = Map<Seq<char>, SupportedWorkflows>;

    closed spec fn view(&self) -> Map<Seq<char>, SupportedWorkflows> {
        registry_map_of(self.entries@)
    }
}

impl Registry {
    /// A registry with no entries.
    pub fn new() -> (r: Self)
        ensures
            r@ == Map::<Seq<char>, SupportedWorkflows>::empty(),
    {
        Registry { entries: Vec::new() }
    }

    /// Adds a step under `name`, matched case-insensitively from then on.
    pub fn register(&mut self, name: String, workflow: SupportedWorkflows)
        ensures
            final(self)@ == old(self)@.insert(lower_seq(name@), workflow),
    {
        let ghost pre = self.entries@;
        self.entries.push((name, workflow));
        proof {
            assert(self.entries@.drop_last() =~= pre);
        }
    }

    /// Finds the step registered under `name`, up to ASCII case.
    pub fn lookup<'a>(&'a self, name: &str) -> (r: Option<&'a SupportedWorkflows>)
        ensures
            match r {
                Some(w) => self@.dom().contains(lower_seq(name@)) && *w == self@[lower_seq(
                    name@,
                )],
                None => !self@.dom().contains(lower_seq(name@)),
            },
    {
        let n = self.entries.len();
        let mut i: usize = 0;
        let mut found: Option<usize> = None;
        while i < n
            invariant
                i <= n,
                n == self.entries@.len(),
                match found {
                    Some(j) => {
                        &&& j < i
                        &&& registry_map_of(self.entries@.take(i as int)).dom().contains(
                            lower_seq(name@),
                        )
                        &&& self.entries@[j as int].1 == registry_map_of(
                            self.entries@.take(i as int),
                        )[lower_seq(name@)]
                    },
                    None => !registry_map_of(self.entries@.take(i as int)).dom().contains(
                        lower_seq(name@),
                    ),
                },
            decreases n - i,
        {
            proof {
                assert(self.entries@.take(i + 1).drop_last() =~= self.entries@.take(i as int));
                assert(self.entries@.take(i + 1).last() == self.entries@[i as int]);
            }
            if eq_ignore_ascii_case(name, self.entries[i].0.as_str()) {
                found = Some(i);
            }
            i += 1;
        }
        proof {
            assert(self.entries@.take(n as int) =~= self.entries@);
        }
        match found {
            Some(j) => Some(&self.entries[j].1),
            None => None,
        }
    }

    /// The registry of every known variant, one entry each, under the type
    /// names the configuration format uses.
    pub fn standard() -> (r: Self)
        ensures
            r@ == Map::<Seq<char>, SupportedWorkflows>::empty().insert(
                "http"@,
                SupportedWorkflows::Http(Http {}),
            ).insert("echo"@, SupportedWorkflows::Echo(Echo {})).insert(
                "wechat"@,
                SupportedWorkflows::WeChat(WeChat {}),
            ).insert("gist"@, SupportedWorkflows::Gist(Gist {})).insert(
                "command"@,
                SupportedWorkflows::Command(Command {}),
            ).insert("download"@, SupportedWorkflows::Download(Download {})).insert(
                "decompress"@,
                SupportedWorkflows::Decompress(Decompress {}),
            ),
    {
        let mut r = Registry::new();
        r.register(String::from_str("http"), SupportedWorkflows::Http(Http {}));
        r.register(String::from_str("echo"), SupportedWorkflows::Echo(Echo {}));
        r.register(String::from_str("wechat"), SupportedWorkflows::WeChat(WeChat {}));
        r.register(String::from_str("gist"), SupportedWorkflows::Gist(Gist {}));
        r.register(String::from_str("command"), SupportedWorkflows::Command(Command {}));
        r.register(String::from_str("download"), SupportedWorkflows::Download(Download {}));
        r.register(String::from_str("decompress"), SupportedWorkflows::Decompress(Decompress {}));
        proof {
            reveal_strlit("http");
            reveal_strlit("echo");
            reveal_strlit("wechat");
            reveal_strlit("gist");
            reveal_strlit("command");
            reveal_strlit("download");
            reveal_strlit("decompress");
            lemma_lower_seq_id_of_key("http");
            lemma_lower_seq_id_of_key("echo");
            lemma_lower_seq_id_of_key("wechat");
            lemma_lower_seq_id_of_key("gist");
            lemma_lower_seq_id_of_key("command");
            lemma_lower_seq_id_of_key("download");
            lemma_lower_seq_id_of_key("decompress");
        }
        r
    }
}

/// ASCII case folding leaves a name that holds no uppercase letter as it is.
proof fn lemma_lower_seq_id_of_key(s: &str)
    requires
        forall|i: int| 0 <= i < s@.len() ==> !(65 <= #[trigger] s@[i] as u32 && s@[i] as u32
            <= 90),
    ensures
        lower_seq(s@) == s@,
{
    assert(lower_seq(s@) =~= s@);
}

} // verus!
