//! The provider registry and the pieces every provider shares: the
//! `{ "secret": ..., "events": [...] }` configuration shape and the
//! polymorphic [`Provider`] value.

pub mod github;
pub mod gitlab;
pub mod standalone;
pub mod testing;

use crate::env_builder::EnvBuilder;
use crate::errors::{FisherError, FisherErrorV};
use crate::json::{json_of, obj_get, parse_json, json_obj_get, Json};
use crate::requests::{Request, RequestType, RequestV};
use vstd::prelude::*;

verus! {

/// Abstract value of an [`EventsConfig`]: an optional shared secret and
/// an optional whitelist of event names.
pub ghost struct EventsConfigV {
    pub secret: Option<Seq<char>>,
    pub events: Option<Seq<Seq<char>>>,
}

/// A parsed `{ "secret"?: string, "events"?: [string] }` configuration,
/// the shape both the GitHub and the GitLab provider take.
pub struct EventsConfig {
    pub secret: Option<String>,
    pub events: Option<Vec<String>>,
}

impl View for EventsConfig {
    type V = EventsConfigV;

    open spec fn view(&self) -> EventsConfigV {
        EventsConfigV { secret: self.secret.deep_view(), events: self.events.deep_view() }
    }
}

impl Clone for EventsConfig {
    /// A copy with the same abstract value.
    fn clone(&self) -> (r: Self)
        ensures
            r@ == self@,
    {
        let secret = match &self.secret {
            Some(s) => Some(s.clone()),
            None => None,
        };
        let events = match &self.events {
            Some(v) => Some(crate::strutil::clone_string_vec(v)),
            None => None,
        };
        EventsConfig { secret, events }
    }
}

/// The string carried by a JSON string value; other shapes carry nothing.
pub open spec fn str_content(j: Json) -> Seq<char> {
    match j {
        Json::Str(s) => s@,
        _ => Seq::empty(),
    }
}

/// The secret denoted by an optional `secret` field: absent is fine,
/// a string is fine, any other shape rejects the configuration.
pub open spec fn secret_of_field(f: Option<Json>) -> Option<Option<Seq<char>>> {
    match f {
        None => Some(None),
        Some(Json::Str(s)) => Some(Some(s@)),
        Some(_) => None,
    }
}

/// The whitelist denoted by an optional `events` field: absent is fine,
/// an array of strings is fine, any other shape rejects the
/// configuration.
pub open spec fn events_of_field(f: Option<Json>) -> Option<Option<Seq<Seq<char>>>> {
    match f {
        None => Some(None),
        Some(Json::Array(items)) => {
            if forall|i: int| 0 <= i < items@.len() ==> items@[i] is Str {
                Some(Some(items@.map_values(|j: Json| str_content(j))))
            } else {
                None
            }
        },
        Some(_) => None,
    }
}

/// The configuration a JSON document denotes, if it is an object whose
/// `secret` and `events` fields have the right shapes; other fields are
/// ignored.
pub open spec fn config_of_json(j: Json) -> Option<EventsConfigV> {
    match j {
        Json::Object(fields) => {
            match (
                secret_of_field(obj_get(fields@, "secret"@)),
                events_of_field(obj_get(fields@, "events"@)),
            ) {
                (Some(sec), Some(ev)) => Some(EventsConfigV { secret: sec, events: ev }),
                _ => None,
            }
        },
        _ => None,
    }
}

/// The configuration a string denotes, if it parses as JSON of the
/// right shape.
pub open spec fn parsed_config(s: Seq<char>) -> Option<EventsConfigV> {
    match json_of(s) {
        Some(j) => config_of_json(j),
        None => None,
    }
}

/// Parse a `{ "secret"?: string, "events"?: [string] }` configuration.
#[verifier::loop_isolation(false)]
pub fn parse_events_config(s: &str) -> (r: Option<EventsConfig>)
    ensures
        match r {
            Some(c) => parsed_config(s@) == Some(c@),
            None => parsed_config(s@) is None,
        },
{
    let parsed = match parse_json(s) {
        Some(j) => j,
        None => {
            return None;
        },
    };
    let fields = match parsed {
        Json::Object(fields) => fields,
        _ => {
            return None;
        },
    };
    let secret: Option<String> = match json_obj_get(&fields, "secret") {
        None => None,
        Some(v) => match v {
            Json::Str(sv) => Some(sv.clone()),
            _ => {
                return None;
            },
        },
    };
    let events: Option<Vec<String>> = match json_obj_get(&fields, "events") {
        None => None,
        Some(v) => match v {
            Json::Array(items) => {
                let mut evs: Vec<String> = Vec::new();
                let n = items.len();
                let mut i: usize = 0;
                while i < n
                    invariant
                        i <= n,
                        n == items@.len(),
                        forall|k: int| 0 <= k < i ==> items@[k] is Str,
                        evs.deep_view() =~= items@.take(i as int).map_values(
                            |j: Json| str_content(j),
                        ),
                    decreases n - i,
                {
                    let ghost pre = evs.deep_view();
                    let ghost prev = evs@;
                    match &items[i] {
                        Json::Str(sv) => {
                            let x = sv.clone();
                            proof {
                                assert(x@ == str_content(items@[i as int]));
                            }
                            evs.push(x);
                        },
                        _ => {
                            proof {
                                assert(!(items@[i as int] is Str));
                            }
                            return None;
                        },
                    }
                    proof {
                        let target = items@.take(i as int + 1).map_values(|j: Json| str_content(j));
                        assert(pre.len() == prev.len());
                        assert(prev.len() == i as int);
                        assert forall|k: int| 0 <= k < i + 1 implies evs.deep_view()[k]
                            == target[k] by {
                            if k < i {
                                assert(evs@[k] == prev[k]);
                                assert(pre[k] == items@.take(i as int).map_values(
                                    |j: Json| str_content(j),
                                )[k]);
                            }
                        }
                        assert(evs.deep_view() =~= target);
                    }
                    i = i + 1;
                }
                proof {
                    assert(items@.take(n as int) =~= items@);
                }
                Some(evs)
            },
            _ => {
                return None;
            },
        },
    };
    Some(EventsConfig { secret, events })
}

/// Abstract value of a [`Provider`].
pub ghost enum ProviderV {
    Standalone,
    GitHub(EventsConfigV),
    GitLab(EventsConfigV),
    Testing(Seq<char>),
}

/// One configured validation strategy: the permissive default, the two
/// platform validators, or the test helper.
pub enum Provider {
    Standalone(standalone::StandaloneProvider),
    GitHub(github::GitHubProvider),
    GitLab(gitlab::GitLabProvider),
    Testing(testing::TestingProvider),
}

impl View for Provider {
    type V = ProviderV;

    open spec fn view(&self) -> ProviderV {
        match self {
            Provider::Standalone(_) => ProviderV::Standalone,
            Provider::GitHub(p) => ProviderV::GitHub(p@),
            Provider::GitLab(p) => ProviderV::GitLab(p@),
            Provider::Testing(p) => ProviderV::Testing(p@),
        }
    }
}

/// How a provider classifies a request.
pub open spec fn provider_validate_spec(p: ProviderV, r: RequestV) -> RequestType {
    match p {
        ProviderV::Standalone => standalone::standalone_validate_spec(r),
        ProviderV::GitHub(c) => github::github_validate_spec(c, r),
        ProviderV::GitLab(c) => gitlab::gitlab_validate_spec(c, r),
        ProviderV::Testing(c) => testing::testing_validate_spec(r),
    }
}

/// Whether a provider's `build_env` panics-free precondition holds: the
/// headers it reads blindly are present. Validation guarantees it.
pub open spec fn provider_build_env_pre(p: ProviderV, r: RequestV) -> bool {
    match p {
        ProviderV::GitHub(c) => github::github_build_env_pre(r),
        ProviderV::GitLab(c) => gitlab::gitlab_build_env_pre(r),
        _ => true,
    }
}

/// What a provider's `build_env` leaves in the builder, and whether it
/// succeeds.
pub open spec fn provider_build_env_spec(
    p: ProviderV,
    r: RequestV,
    before: crate::env_builder::EnvBuilderV,
) -> (crate::env_builder::EnvBuilderV, Result<(), FisherErrorV>) {
    match p {
        ProviderV::Standalone => (before, Ok(())),
        ProviderV::GitHub(c) => github::github_build_env_spec(c, r, before),
        ProviderV::GitLab(c) => gitlab::gitlab_build_env_spec(r, before),
        ProviderV::Testing(_) => (testing::testing_build_env_spec(r, before), Ok(())),
    }
}

/// Whether a provider wants status hooks after a job for this request.
pub open spec fn provider_status_hooks_spec(p: ProviderV, r: RequestV) -> bool {
    match p {
        ProviderV::Testing(_) => testing::testing_status_hooks_spec(r),
        _ => true,
    }
}

impl Provider {
    /// Classify a request.
    pub fn validate(&self, request: &Request) -> (t: RequestType)
        ensures
            t == provider_validate_spec(self@, request@),
    {
        match self {
            Provider::Standalone(p) => p.validate(request),
            Provider::GitHub(p) => p.validate(request),
            Provider::GitLab(p) => p.validate(request),
            Provider::Testing(p) => p.validate(request),
        }
    }

    /// Fill the environment for a validated request.
    pub fn build_env(&self, request: &Request, builder: &mut EnvBuilder) -> (r: Result<
        (),
        FisherError,
    >)
        requires
            provider_build_env_pre(self@, request@),
        ensures
            final(builder)@ == provider_build_env_spec(self@, request@, old(builder)@).0,
            match r {
                Ok(()) => provider_build_env_spec(self@, request@, old(builder)@).1 is Ok,
                Err(e) => provider_build_env_spec(self@, request@, old(builder)@).1 == Err::<(), _>(
                    e@,
                ),
            },
    {
        match self {
            Provider::Standalone(p) => p.build_env(request, builder),
            Provider::GitHub(p) => p.build_env(request, builder),
            Provider::GitLab(p) => p.build_env(request, builder),
            Provider::Testing(p) => p.build_env(request, builder),
        }
    }

    /// Whether status hooks should run after a job for this request.
    pub fn trigger_status_hooks(&self, request: &Request) -> (r: bool)
        ensures
            r == provider_status_hooks_spec(self@, request@),
    {
        match self {
            Provider::Testing(p) => p.trigger_status_hooks(request),
            _ => true,
        }
    }
}

impl Clone for Provider {
    /// A copy with the same abstract value.
    fn clone(&self) -> (r: Self)
        ensures
            r@ == self@,
    {
        match self {
            Provider::Standalone(p) => Provider::Standalone(p.clone()),
            Provider::GitHub(p) => Provider::GitHub(p.clone()),
            Provider::GitLab(p) => Provider::GitLab(p.clone()),
            Provider::Testing(p) => Provider::Testing(p.clone()),
        }
    }
}

/// A request that any provider lets through satisfies that provider's
/// `build_env` precondition: the headers `build_env` reads blindly are
/// checked during validation.
pub proof fn lemma_validate_implies_build_env_pre(p: ProviderV, r: RequestV)
    requires
        provider_validate_spec(p, r) != RequestType::Invalid,
    ensures
        provider_build_env_pre(p, r),
{
}

/// Whether a provider's `build_env` precondition holds of a request.
pub fn build_env_pre_exec(p: &Provider, r: &Request) -> (b: bool)
    ensures
        b == provider_build_env_pre(p@, r@),
{
    let req = match r {
        Request::Web(req) => req,
        Request::Status(_) => {
            return true;
        },
    };
    match p {
        Provider::GitHub(_) => req.headers.contains_key("X-GitHub-Event")
            && req.headers.contains_key("X-GitHub-Delivery"),
        Provider::GitLab(_) => req.headers.contains_key("X-Gitlab-Event"),
        _ => true,
    }
}

/// What the registry answers for a provider name and its configuration.
pub open spec fn provider_new_spec(name: Seq<char>, config: Seq<char>) -> Result<
    ProviderV,
    FisherErrorV,
> {
    if name == "Standalone"@ {
        match standalone::standalone_new_spec(config) {
            Ok(_) => Ok(ProviderV::Standalone),
            Err(e) => Err(e),
        }
    } else if name == "GitHub"@ {
        match github::github_new_spec(config) {
            Ok(c) => Ok(ProviderV::GitHub(c)),
            Err(e) => Err(e),
        }
    } else if name == "GitLab"@ {
        match gitlab::gitlab_new_spec(config) {
            Ok(c) => Ok(ProviderV::GitLab(c)),
            Err(e) => Err(e),
        }
    } else if name == "Testing"@ {
        match testing::testing_new_spec(config) {
            Ok(c) => Ok(ProviderV::Testing(c)),
            Err(e) => Err(e),
        }
    } else {
        Err(FisherErrorV::ProviderNotFound(name))
    }
}

/// Look a provider up by name and configure it.
pub fn get(name: &str, config: &str) -> (r: Result<Provider, FisherError>)
    ensures
        match r {
            Ok(p) => provider_new_spec(name@, config@) == Ok::<_, FisherErrorV>(p@),
            Err(e) => provider_new_spec(name@, config@) == Err::<ProviderV, _>(e@),
        },
{
    if crate::strutil::str_eq(name, "Standalone") {
        match standalone::StandaloneProvider::new(config) {
            Ok(p) => Ok(Provider::Standalone(p)),
            Err(e) => Err(e),
        }
    } else if crate::strutil::str_eq(name, "GitHub") {
        match github::GitHubProvider::new(config) {
            Ok(p) => Ok(Provider::GitHub(p)),
            Err(e) => Err(e),
        }
    } else if crate::strutil::str_eq(name, "GitLab") {
        match gitlab::GitLabProvider::new(config) {
            Ok(p) => Ok(Provider::GitLab(p)),
            Err(e) => Err(e),
        }
    } else if crate::strutil::str_eq(name, "Testing") {
        match testing::TestingProvider::new(config) {
            Ok(p) => Ok(Provider::Testing(p)),
            Err(e) => Err(e),
        }
    } else {
        Err(FisherError::ProviderNotFound(name.to_owned()))
    }
}

} // verus!
