//! A hook: a script on disk bound to the providers its first line
//! declares, and the validation that picks the provider a request runs
//! under.

use crate::errors::{FisherError, FisherErrorV};
use crate::providers::{provider_new_spec, provider_validate_spec, Provider, ProviderV};
use crate::requests::{Request, RequestType, RequestV};
use crate::strutil::{find_char, str_eq};
use vstd::prelude::*;
use vstd::string::StrSliceExecFns;

verus! {

/// Abstract value of a [`Hook`].
pub ghost struct HookV {
    pub name: Seq<char>,
    pub script_path: Seq<char>,
    pub providers: Seq<(Seq<char>, ProviderV)>,
}

/// A named script together with the providers declared for it, in
/// declaration order.
pub struct Hook {
    pub name: String,
    pub script_path: String,
    pub providers: Vec<(String, Provider)>,
}

impl View for Hook {
    type V = HookV;

    open spec fn view(&self) -> HookV {
        HookV {
            name: self.name@,
            script_path: self.script_path@,
            providers: self.providers@.map_values(|p: (String, Provider)| (p.0@, p.1@)),
        }
    }
}

/// How a hook answers a request: reject it, acknowledge a ping, or run
/// the script under the chosen provider (`None` names the implicit
/// Standalone of a hook without declared providers).
pub enum HookOutcome {
    Rejected,
    Pong,
    Run(Option<usize>),
}

/// The outcome of walking the providers from position `i` on: the first
/// provider that does not reject the request decides.
pub open spec fn hook_validate_from(
    providers: Seq<(Seq<char>, ProviderV)>,
    r: RequestV,
    i: int,
) -> HookOutcome
    decreases providers.len() - i,
{
    if i < 0 || i >= providers.len() {
        HookOutcome::Rejected
    } else {
        match provider_validate_spec(providers[i].1, r) {
            RequestType::ExecuteHook => HookOutcome::Run(Some(i as usize)),
            RequestType::Ping => HookOutcome::Pong,
            RequestType::Invalid => hook_validate_from(providers, r, i + 1),
        }
    }
}

/// How a hook answers a request: with no declared providers any web
/// request runs (the implicit Standalone); otherwise the first provider
/// that does not reject decides.
pub open spec fn hook_validate_spec(h: HookV, r: RequestV) -> HookOutcome {
    if h.providers.len() == 0 {
        match r {
            RequestV::Web(_) => HookOutcome::Run(None),
            RequestV::Status(_) => HookOutcome::Rejected,
        }
    } else {
        hook_validate_from(h.providers, r, 0)
    }
}

/// Walking the providers only names an index that classified the
/// request as fit to execute.
proof fn lemma_validate_from_run_index(
    providers: Seq<(Seq<char>, ProviderV)>,
    r: RequestV,
    j: int,
    i: usize,
)
    requires
        providers.len() <= usize::MAX as int,
        0 <= j <= providers.len(),
        hook_validate_from(providers, r, j) == HookOutcome::Run(Some(i)),
    ensures
        j <= i < providers.len(),
        provider_validate_spec(providers[i as int].1, r) == RequestType::ExecuteHook,
    decreases providers.len() - j,
{
    if j < providers.len() {
        match provider_validate_spec(providers[j].1, r) {
            RequestType::ExecuteHook => {
                assert(i == j as usize);
                assert(i as int == j);
            },
            RequestType::Ping => {},
            RequestType::Invalid => {
                lemma_validate_from_run_index(providers, r, j + 1, i);
            },
        }
    }
}

/// A hook never runs without a prior `ExecuteHook` classification: when
/// validation names a provider, that provider classified the request as
/// fit to execute, and the job runs under exactly that provider.
pub proof fn lemma_run_chose_executing_provider(h: HookV, r: RequestV, i: usize)
    requires
        h.providers.len() <= usize::MAX as int,
        hook_validate_spec(h, r) == HookOutcome::Run(Some(i)),
    ensures
        i < h.providers.len(),
        provider_validate_spec(h.providers[i as int].1, r) == RequestType::ExecuteHook,
{
    lemma_validate_from_run_index(h.providers, r, 0, i);
}

/// A hook with no declared providers runs on any web request: the
/// permissive default is what an undeclared script gets.
pub proof fn lemma_no_providers_executes(h: HookV, r: RequestV)
    requires
        h.providers.len() == 0,
        r is Web,
    ensures
        hook_validate_spec(h, r) == HookOutcome::Run(None::<usize>),
{
}

impl Hook {
    /// Validate a request against the declared providers.
    #[verifier::loop_isolation(false)]
    pub fn validate(&self, request: &Request) -> (outcome: HookOutcome)
        ensures
            outcome == hook_validate_spec(self@, request@),
    {
        let n = self.providers.len();
        if n == 0 {
            return match request {
                Request::Web(_) => HookOutcome::Run(None),
                Request::Status(_) => HookOutcome::Rejected,
            };
        }
        let mut i: usize = 0;
        while i < n
            invariant
                i <= n,
                hook_validate_from(self@.providers, request@, 0) == hook_validate_from(
                    self@.providers,
                    request@,
                    i as int,
                ),
            decreases n - i,
        {
            let p = &self.providers[i];
            proof {
                assert(self@.providers[i as int].1 == p.1@);
            }
            match p.1.validate(request) {
                RequestType::ExecuteHook => {
                    return HookOutcome::Run(Some(i));
                },
                RequestType::Ping => {
                    return HookOutcome::Pong;
                },
                RequestType::Invalid => {},
            }
            i = i + 1;
        }
        HookOutcome::Rejected
    }
}

impl Clone for Hook {
    /// A copy with the same abstract value.
    #[verifier::loop_isolation(false)]
    fn clone(&self) -> (r: Self)
        ensures
            r@ == self@,
    {
        let mut providers: Vec<(String, Provider)> = Vec::new();
        let n = self.providers.len();
        let mut i: usize = 0;
        while i < n
            invariant
                i <= n,
                providers@.map_values(|p: (String, Provider)| (p.0@, p.1@)) =~= self@.providers.take(
                    i as int,
                ),
            decreases n - i,
        {
            let p = &self.providers[i];
            providers.push((p.0.clone(), p.1.clone()));
            proof {
                assert(providers@.map_values(|p: (String, Provider)| (p.0@, p.1@))
                    =~= self@.providers.take(i as int + 1));
            }
            i = i + 1;
        }
        proof {
            assert(self@.providers.take(n as int) =~= self@.providers);
        }
        Hook { name: self.name.clone(), script_path: self.script_path.clone(), providers }
    }
}

/// Whether a script's first line declares a provider with the given name
/// and configuration: the line starts with `## Fisher-`, the name runs
/// to the first colon and is not empty, and the configuration is the
/// rest of the line with one leading space stripped.
pub open spec fn decl_matches(line: Seq<char>, name: Seq<char>, config: Seq<char>) -> bool {
    exists|i: int|
        10 < i < line.len() && #[trigger] line[i] == ':' && (forall|j: int|
            10 <= j < i ==> line[j] != ':') && line.subrange(0, 10) == "## Fisher-"@ && name
            == line.subrange(10, i) && config == strip_one_space(line.skip(i + 1))
}

/// A string with one leading space removed, if it starts with one.
pub open spec fn strip_one_space(s: Seq<char>) -> Seq<char> {
    if s.len() > 0 && s[0] == ' ' {
        s.drop_first()
    } else {
        s
    }
}

/// Build a hook from its name, its script path and the first line of
/// the script. A declared provider is instantiated through the
/// registry; a line that declares nothing leaves the hook without
/// providers, so that any web request runs it.
#[verifier::loop_isolation(false)]
pub fn load_hook(name: String, script_path: String, first_line: &str) -> (r: Result<
    Hook,
    FisherError,
>)
    ensures
        match r {
            Ok(h) => {
                &&& h@.name == name@
                &&& h@.script_path == script_path@
                &&& forall|nm: Seq<char>, cfg: Seq<char>|
                    decl_matches(first_line@, nm, cfg) ==> (provider_new_spec(nm, cfg) matches Ok(
                        pv,
                    ) && h@.providers =~= seq![(nm, pv)])
                &&& (!(exists|nm: Seq<char>, cfg: Seq<char>| decl_matches(first_line@, nm, cfg))
                    ==> h@.providers =~= Seq::<(Seq<char>, ProviderV)>::empty())
            },
            Err(e) => exists|nm: Seq<char>, cfg: Seq<char>|
                decl_matches(first_line@, nm, cfg) && provider_new_spec(nm, cfg) == Err::<
                    ProviderV,
                    _,
                >(e@),
        },
{
    let ghost line = first_line@;
    let n = first_line.unicode_len();
    let no_providers = Hook { name, script_path, providers: Vec::new() };
    if n < 10 {
        proof {
            lemma_short_line_has_no_decl(line);
        }
        return Ok(no_providers);
    }
    let prefix = first_line.substring_char(0, 10);
    if !str_eq(prefix, "## Fisher-") {
        proof {
            assert forall|nm: Seq<char>, cfg: Seq<char>|
                !decl_matches(line, nm, cfg) by {}
        }
        return Ok(no_providers);
    }
    let colon = match find_char(first_line, ':') {
        Some(i) => i,
        None => {
            return Ok(no_providers);
        },
    };
    proof {
        reveal_strlit("## Fisher-");
        assert(line[colon as int] == ':');
        assert forall|i2: int|
            10 <= i2 < line.len() && line[i2] == ':' && (forall|j: int|
                10 <= j < i2 ==> line[j] != ':') implies i2 == colon as int by {
            if i2 > colon as int {
                assert(colon >= 10) by {
                    assert(forall|j: int| 0 <= j < 10 ==> line[j] == "## Fisher-"@[j]);
                }
                assert(line[colon as int] != ':');
            } else if i2 < colon as int {
                assert(line[i2] != ':');
            }
        };
        assert(colon >= 10) by {
            assert(forall|j: int| 0 <= j < 10 ==> line[j] == "## Fisher-"@[j]);
        }
    }
    if colon == 10 {
        return Ok(no_providers);
    }
    let provider_name = first_line.substring_char(10, colon);
    let config: &str = if colon + 1 < n && first_line.get_char(colon + 1) == ' ' {
        first_line.substring_char(colon + 2, n)
    } else {
        first_line.substring_char(colon + 1, n)
    };
    proof {
        assert(line.skip(colon as int + 1) =~= line.subrange(colon as int + 1, n as int));
        if colon as int + 1 < n as int && line[colon as int + 1] == ' ' {
            assert(config@ =~= strip_one_space(line.skip(colon as int + 1)));
        } else {
            assert(config@ =~= strip_one_space(line.skip(colon as int + 1)));
        }
        assert(decl_matches(line, provider_name@, config@));
    }
    match crate::providers::get(provider_name, config) {
        Ok(provider) => {
            let mut providers: Vec<(String, Provider)> = Vec::new();
            providers.push((provider_name.to_owned(), provider));
            let h = Hook { name: no_providers.name, script_path: no_providers.script_path, providers };
            proof {
                assert(h@.providers =~= seq![(provider_name@, h@.providers[0].1)]);
            }
            Ok(h)
        },
        Err(e) => Err(e),
    }
}

/// A line shorter than the `## Fisher-` prefix declares nothing.
proof fn lemma_short_line_has_no_decl(line: Seq<char>)
    requires
        line.len() < 10,
    ensures
        !(exists|nm: Seq<char>, cfg: Seq<char>| decl_matches(line, nm, cfg)),
{
}

} // verus!
