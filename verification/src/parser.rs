//! The variable resolver.
//!
//! A raw parameter string may embed placeholders of the form `${NAME}`. Each
//! placeholder is replaced by the value of `NAME` in the run context's
//! two-tier namespace; a name absent from both tiers aborts the run. The
//! substitution is purely textual and happens once: a substituted value is
//! inserted literally, even if it itself looks like placeholder syntax. A
//! `${` that is never closed by a `}` is ordinary text.

use vstd::prelude::*;

use crate::context::Context;
use crate::errors::PipelineError;

verus! {

/// The index of the first `}` in `s`, if any.
pub open spec fn find_close(s: Seq<char>) -> Option<int>
    decreases s.len(),
{
    if s.len() == 0 {
        None
    } else if s[0] == '}' {
        Some(0int)
    } else {
        match find_close(s.drop_first()) {
            None => None,
            Some(i) => Some(i + 1),
        }
    }
}

/// `find_close` returns the least index holding `}`, and `None` exactly when
/// `s` holds no `}` at all.
pub proof fn lemma_find_close(s: Seq<char>)
    ensures
        match find_close(s) {
            Some(k) => 0 <= k < s.len() && s[k] == '}' && (forall|m: int|
                0 <= m < k ==> s[m] != '}'),
            None => forall|m: int| 0 <= m < s.len() ==> s[m] != '}',
        },
    decreases s.len(),
{
    if s.len() == 0 {
    } else if s[0] == '}' {
    } else {
        let t = s.drop_first();
        lemma_find_close(t);
        match find_close(t) {
            None => {
                assert forall|m: int| 0 <= m < s.len() implies s[m] != '}' by {
                    if m > 0 {
                        assert(t[m - 1] == s[m]);
                        assert(t[m - 1] != '}');
                    }
                }
            },
            Some(i) => {
                assert(t[i] == s[i + 1]);
                assert forall|m: int| 0 <= m < i + 1 implies s[m] != '}' by {
                    if m > 0 {
                        assert(t[m - 1] == s[m]);
                        assert(t[m - 1] != '}');
                    }
                }
            },
        }
    }
}

/// What resolving `s` against the namespace `vars` yields: the fully
/// substituted text, or the first referenced name that `vars` does not
/// define.
pub open spec fn resolve_seq(s: Seq<char>, vars: Map<Seq<char>, Seq<char>>) -> Result<
    Seq<char>,
    Seq<char>,
>
    decreases s.len(),
{
    if s.len() == 0 {
        Ok(Seq::empty())
    } else if 2 <= s.len() && s[0] == '$' && s[1] == '{' {
        match find_close(s.skip(2)) {
            Some(k) => {
                let name = s.subrange(2, 2 + k);
                if vars.dom().contains(name) {
                    proof {
                        lemma_find_close(s.skip(2));
                    }
                    match resolve_seq(s.skip(3 + k), vars) {
                        Ok(t) => Ok(vars[name] + t),
                        Err(m) => Err(m),
                    }
                } else {
                    Err(name)
                }
            },
            // a `${` that is never closed is ordinary text
            None => Ok(s),
        }
    } else {
        match resolve_seq(s.drop_first(), vars) {
            Ok(t) => Ok(seq![s[0]] + t),
            Err(m) => Err(m),
        }
    }
}

/// Whether `s` holds a `${` placeholder opening anywhere.
pub open spec fn has_placeholder(s: Seq<char>) -> bool {
    exists|i: int| 0 <= i && i + 1 < s.len() && #[trigger] s[i] == '$' && s[i + 1] == '{'
}

/// Resolution is the identity on placeholder-free text: whatever the
/// namespace holds, a string without `${` comes back unchanged.
pub proof fn lemma_resolve_identity(s: Seq<char>, vars: Map<Seq<char>, Seq<char>>)
    requires
        !has_placeholder(s),
    ensures
        resolve_seq(s, vars) == Ok::<Seq<char>, Seq<char>>(s),
    decreases s.len(),
{
    if s.len() == 0 {
        assert(Seq::<char>::empty() =~= s);
    } else {
        if 2 <= s.len() && s[0] == '$' && s[1] == '{' {
            assert(has_placeholder(s)) by {
                assert(0 <= 0int && 0int + 1 < s.len() && s[0int] == '$' && s[0int + 1] == '{');
            }
            assert(false);
        }
        assert(!has_placeholder(s.drop_first())) by {
            if has_placeholder(s.drop_first()) {
                let i = choose|i: int|
                    0 <= i && i + 1 < s.drop_first().len() && #[trigger] s.drop_first()[i] == '$'
                        && s.drop_first()[i + 1] == '{';
                assert(s.drop_first()[i] == s[i + 1]);
                assert(s.drop_first()[i + 1] == s[i + 2]);
                assert(has_placeholder(s)) by {
                    assert(0 <= i + 1 && i + 1 + 1 < s.len() && s[i + 1] == '$' && s[i + 1 + 1]
                        == '{');
                }
                assert(false);
            }
        }
        lemma_resolve_identity(s.drop_first(), vars);
        assert(seq![s[0]] + s.drop_first() =~= s);
    }
}

/// Resolves every `${NAME}` placeholder of `raw` against the run context,
/// yielding the concrete string, or the first name defined in neither tier.
pub fn fulfill(raw: &str, context: &Context) -> (r: Result<String, PipelineError>)
    ensures
        match r {
            Ok(out) => resolve_seq(raw@, context.vars()) == Ok::<Seq<char>, Seq<char>>(out@),
            Err(e) => match e {
                PipelineError::MissingVariable(name) => resolve_seq(raw@, context.vars())
                    == Err::<Seq<char>, Seq<char>>(name@),
                PipelineError::UnknownWorkflow(_) => false,
            },
        },
{
    let ghost vars = context.vars();
    let n = raw.unicode_len();
    let mut out = String::new();
    let mut i: usize = 0;
    proof {
        assert(raw@.skip(0) =~= raw@);
        if resolve_seq(raw@, vars) is Ok {
            let t = resolve_seq(raw@, vars)->Ok_0;
            assert(out@ + t =~= t);
        }
    }
    while i < n
        invariant
            i <= n,
            n == raw@.len(),
            vars == context.vars(),
            match resolve_seq(raw@.skip(i as int), vars) {
                Ok(t) => resolve_seq(raw@, vars) == Ok::<Seq<char>, Seq<char>>(out@ + t),
                Err(m) => resolve_seq(raw@, vars) == Err::<Seq<char>, Seq<char>>(m),
            },
        decreases n - i,
    {
        let ghost s_i = raw@.skip(i as int);
        let c0 = raw.get_char(i);
        let is_open = if c0 == '$' && i + 1 < n {
            raw.get_char(i + 1) == '{'
        } else {
            false
        };
        if is_open {
            proof {
                assert(s_i.len() >= 2);
                assert(s_i[0] == '$' && s_i[1] == '{');
                assert(s_i.skip(2) =~= raw@.skip(i + 2));
            }
            let mut j: usize = i + 2;
            while j < n && raw.get_char(j) != '}'
                invariant
                    i + 2 <= j <= n,
                    n == raw@.len(),
                    forall|m: int| i + 2 <= m < j ==> raw@[m] != '}',
                decreases n - j,
            {
                j += 1;
            }
            let ghost tail2 = s_i.skip(2);
            proof {
                lemma_find_close(tail2);
                assert(forall|m: int| 0 <= m < tail2.len() ==> tail2[m] == raw@[m + i + 2]);
            }
            if j == n {
                // no closing brace anywhere after the `${`: the rest is text
                proof {
                    if find_close(tail2) is Some {
                        let k = find_close(tail2)->Some_0;
                        assert(tail2[k] == '}');
                        assert(raw@[k + i + 2] != '}');
                        assert(false);
                    }
                    assert(resolve_seq(s_i, vars) == Ok::<Seq<char>, Seq<char>>(s_i));
                }
                let rest = raw.substring_char(i, n);
                out.append(rest);
                proof {
                    assert(rest@ =~= s_i);
                    assert(raw@.skip(n as int) =~= Seq::<char>::empty());
                    assert(resolve_seq(raw@.skip(n as int), vars) == Ok::<Seq<char>, Seq<char>>(
                        Seq::empty(),
                    ));
                    assert(out@ + Seq::<char>::empty() =~= out@);
                }
                i = n;
            } else {
                let ghost k = j - (i + 2);
                proof {
                    assert(raw@[j as int] == '}');
                    assert(tail2[k] == '}');
                    match find_close(tail2) {
                        None => {
                            assert(tail2[k] != '}');
                            assert(false);
                        },
                        Some(k2) => {
                            if k2 < k {
                                assert(tail2[k2] == '}');
                                assert(raw@[k2 + i + 2] != '}');
                                assert(false);
                            }
                            if k2 > k {
                                assert(tail2[k] != '}');
                                assert(false);
                            }
                        },
                    }
                    assert(find_close(tail2) == Some(k));
                }
                let name_str = raw.substring_char(i + 2, j);
                let ghost name = s_i.subrange(2, 2 + k);
                proof {
                    assert(name_str@ =~= raw@.subrange(i + 2, j as int));
                    assert(name =~= raw@.subrange(i + 2, j as int));
                }
                match context.lookup(name_str) {
                    None => {
                        proof {
                            assert(resolve_seq(s_i, vars) == Err::<Seq<char>, Seq<char>>(name));
                        }
                        return Err(PipelineError::MissingVariable(String::from_str(name_str)));
                    },
                    Some(value) => {
                        proof {
                            assert(s_i.skip(3 + k) =~= raw@.skip(j + 1));
                            assert(value@ == vars[name]);
                        }
                        let ghost out_pre = out@;
                        out.append(value.as_str());
                        proof {
                            if resolve_seq(raw@.skip(j + 1), vars) is Ok {
                                let t = resolve_seq(raw@.skip(j + 1), vars)->Ok_0;
                                assert(resolve_seq(s_i, vars) == Ok::<Seq<char>, Seq<char>>(
                                    vars[name] + t,
                                ));
                                assert(out_pre + (vars[name] + t) =~= out@ + t);
                            }
                        }
                        i = j + 1;
                    },
                }
            }
        } else {
            // an ordinary character, or a `$` not followed by `{`
            proof {
                assert(!(2 <= s_i.len() && s_i[0] == '$' && s_i[1] == '{'));
                assert(s_i.drop_first() =~= raw@.skip(i + 1));
            }
            let piece = raw.substring_char(i, i + 1);
            let ghost out_pre = out@;
            out.append(piece);
            proof {
                assert(piece@ =~= seq![s_i[0]]);
                if resolve_seq(raw@.skip(i + 1), vars) is Ok {
                    let t = resolve_seq(raw@.skip(i + 1), vars)->Ok_0;
                    assert(resolve_seq(s_i, vars) == Ok::<Seq<char>, Seq<char>>(
                        seq![s_i[0]] + t,
                    ));
                    assert(out_pre + (seq![s_i[0]] + t) =~= out@ + t);
                }
            }
            i += 1;
        }
    }
    proof {
        assert(raw@.skip(n as int) =~= Seq::<char>::empty());
        assert(resolve_seq(raw@.skip(n as int), vars) == Ok::<Seq<char>, Seq<char>>(
            Seq::<char>::empty(),
        ));
        assert(out@ + Seq::<char>::empty() =~= out@);
    }
    Ok(out)
}

} // verus!
