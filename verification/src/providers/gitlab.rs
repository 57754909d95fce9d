//! The GitLab provider: header and token checks, event-name
//! normalization and whitelisting.

use crate::errors::{FisherError, FisherErrorV};
use crate::env_builder::{EnvBuilder, EnvBuilderV};
use crate::json::{json_of, parse_json};
use crate::providers::{parsed_config, parse_events_config, EventsConfig, EventsConfigV};
use crate::requests::{Request, RequestType, RequestV, WebRequestV};
use crate::strutil::{contains_string, str_eq};
use vstd::prelude::*;
use vstd::string::StrSliceExecFns;

verus! {

/// Whether a name is one of the events GitLab documents.
pub open spec fn is_gitlab_event(e: Seq<char>) -> bool {
    ||| e == "Push"@
    ||| e == "Tag Push"@
    ||| e == "Issue"@
    ||| e == "Note"@
    ||| e == "Merge Request"@
    ||| e == "Wiki Page"@
    ||| e == "Build"@
    ||| e == "Pipeline"@
    ||| e == "Confidential Issue"@
}

/// Whether a name is one of the events GitLab documents.
pub fn is_gitlab_event_exec(e: &str) -> (r: bool)
    ensures
        r == is_gitlab_event(e@),
{
    str_eq(e, "Push") || str_eq(e, "Tag Push") || str_eq(e, "Issue") || str_eq(e, "Note") || str_eq(
        e,
        "Merge Request",
    ) || str_eq(e, "Wiki Page") || str_eq(e, "Build") || str_eq(e, "Pipeline") || str_eq(
        e,
        "Confidential Issue",
    )
}

/// The first configured event name that is not a GitLab event.
pub open spec fn first_not_gitlab(evs: Seq<Seq<char>>) -> Option<Seq<char>>
    decreases evs.len(),
{
    if evs.len() == 0 {
        None
    } else if !is_gitlab_event(evs[0]) {
        Some(evs[0])
    } else {
        first_not_gitlab(evs.drop_first())
    }
}

/// The first bad event name in a configuration, if any.
pub open spec fn gitlab_bad_event(c: EventsConfigV) -> Option<Seq<char>> {
    match c.events {
        None => None,
        Some(evs) => first_not_gitlab(evs),
    }
}

/// What configuring a GitLab provider yields: the parsed configuration,
/// or the error naming what was wrong.
pub open spec fn gitlab_new_spec(config: Seq<char>) -> Result<EventsConfigV, FisherErrorV> {
    match parsed_config(config) {
        None => Err(FisherErrorV::InvalidConfig),
        Some(c) => match gitlab_bad_event(c) {
            Some(ev) => Err(FisherErrorV::ProviderGitLabInvalidEventName(ev)),
            None => Ok(c),
        },
    }
}

/// An event name with a single trailing ` Hook` stripped.
pub open spec fn normalized_event(s: Seq<char>) -> Seq<char> {
    if s.len() >= 5 && s.subrange(s.len() - 5, s.len() as int) == " Hook"@ {
        s.subrange(0, s.len() - 5)
    } else {
        s
    }
}

/// Strip a single trailing ` Hook` from an event name.
pub fn normalize_event_name(input: &str) -> (r: &str)
    ensures
        r@ == normalized_event(input@),
{
    let n = input.unicode_len();
    if n >= 5 {
        let tail = input.substring_char(n - 5, n);
        if str_eq(tail, " Hook") {
            return input.substring_char(0, n - 5);
        }
    }
    input
}

/// How the GitLab provider classifies a request: the `X-Gitlab-Event`
/// header must be present, the `X-Gitlab-Token` header must equal the
/// secret when one is configured, the normalized event must be
/// whitelisted when a whitelist is configured, and the body must be
/// JSON; then the hook runs.
pub open spec fn gitlab_validate_spec(c: EventsConfigV, r: RequestV) -> RequestType {
    match r {
        RequestV::Web(req) => {
            if !req.headers.contains_key("X-Gitlab-Event"@) {
                RequestType::Invalid
            } else if c.secret matches Some(sec) && !(req.headers.contains_key("X-Gitlab-Token"@)
                && req.headers["X-Gitlab-Token"@] == sec) {
                RequestType::Invalid
            } else {
                let ev = normalized_event(req.headers["X-Gitlab-Event"@]);
                if c.events matches Some(evs) && !evs.contains(ev) {
                    RequestType::Invalid
                } else if json_of(req.body) is None {
                    RequestType::Invalid
                } else {
                    RequestType::ExecuteHook
                }
            }
        },
        RequestV::Status(_) => RequestType::Invalid,
    }
}

/// `build_env` reads the event header without checking: it is present
/// on every request validation lets through.
pub open spec fn gitlab_build_env_pre(r: RequestV) -> bool {
    match r {
        RequestV::Web(req) => req.headers.contains_key("X-Gitlab-Event"@),
        RequestV::Status(_) => true,
    }
}

/// What the GitLab provider leaves in the builder: `EVENT`, set to the
/// normalized event name.
pub open spec fn gitlab_build_env_spec(r: RequestV, before: EnvBuilderV) -> (
    EnvBuilderV,
    Result<(), FisherErrorV>,
) {
    match r {
        RequestV::Web(req) => {
            (
                EnvBuilderV {
                    env: before.env.insert(
                        "EVENT"@,
                        normalized_event(req.headers["X-Gitlab-Event"@]),
                    ),
                    files: before.files,
                },
                Ok(()),
            )
        },
        RequestV::Status(_) => (before, Ok(())),
    }
}

/// A web request without the `X-Gitlab-Event` header is invalid,
/// whatever the configuration says.
pub proof fn lemma_gitlab_missing_headers_invalid(c: EventsConfigV, r: WebRequestV)
    requires
        !r.headers.contains_key("X-Gitlab-Event"@),
    ensures
        gitlab_validate_spec(c, RequestV::Web(r)) == RequestType::Invalid,
{
}

/// Validation only lets requests through whose headers `build_env`
/// reads, so running the chosen provider cannot go wrong on a missing
/// header.
pub proof fn lemma_gitlab_validate_implies_build_env_pre(c: EventsConfigV, r: RequestV)
    requires
        gitlab_validate_spec(c, r) != RequestType::Invalid,
    ensures
        gitlab_build_env_pre(r),
{
}

/// The GitLab webhook validator.
pub struct GitLabProvider {
    config: EventsConfig,
}

impl View for GitLabProvider {
    type V = EventsConfigV;

    closed spec fn view(&self) -> EventsConfigV {
        self.config@
    }
}

impl GitLabProvider {
    /// Parse a GitLab configuration, rejecting unknown event names.
    #[verifier::loop_isolation(false)]
    pub fn new(config: &str) -> (r: Result<Self, FisherError>)
        ensures
            match r {
                Ok(p) => gitlab_new_spec(config@) == Ok::<_, FisherErrorV>(p@),
                Err(e) => gitlab_new_spec(config@) == Err::<EventsConfigV, _>(e@),
            },
    {
        let c = match parse_events_config(config) {
            Some(c) => c,
            None => {
                return Err(FisherError::InvalidConfig);
            },
        };
        if let Some(events) = &c.events {
            let ghost evsv = events.deep_view();
            let n = events.len();
            let mut i: usize = 0;
            proof {
                assert(evsv.skip(0) =~= evsv);
                assert(c@.events == Some(evsv));
            }
            while i < n
                invariant
                    i <= n,
                    n == events@.len(),
                    evsv == events.deep_view(),
                    first_not_gitlab(evsv) == first_not_gitlab(evsv.skip(i as int)),
                decreases n - i,
            {
                let ghost tail = evsv.skip(i as int);
                proof {
                    assert(tail[0] == evsv[i as int]);
                    assert(evsv[i as int] == events@[i as int]@);
                    assert(tail.drop_first() =~= evsv.skip(i as int + 1));
                }
                if !is_gitlab_event_exec(events[i].as_str()) {
                    return Err(FisherError::ProviderGitLabInvalidEventName(events[i].clone()));
                }
                i = i + 1;
            }
            proof {
                assert(evsv.skip(n as int) =~= Seq::<Seq<char>>::empty());
            }
        }
        Ok(GitLabProvider { config: c })
    }

    /// Classify a request.
    pub fn validate(&self, request: &Request) -> (t: RequestType)
        ensures
            t == gitlab_validate_spec(self@, request@),
    {
        let req = match request {
            Request::Web(req) => req,
            Request::Status(_) => {
                return RequestType::Invalid;
            },
        };
        if !req.headers.contains_key("X-Gitlab-Event") {
            return RequestType::Invalid;
        }
        match &self.config.secret {
            Some(secret) => {
                match req.headers.get("X-Gitlab-Token") {
                    Some(token) => {
                        if !str_eq(token.as_str(), secret.as_str()) {
                            return RequestType::Invalid;
                        }
                    },
                    None => {
                        return RequestType::Invalid;
                    },
                }
            },
            None => {},
        }
        let header = req.headers.get("X-Gitlab-Event").unwrap();
        let event = normalize_event_name(header.as_str());
        match &self.config.events {
            Some(events) => {
                if !contains_string(events, event) {
                    return RequestType::Invalid;
                }
            },
            None => {},
        }
        if parse_json(req.body.as_str()).is_none() {
            return RequestType::Invalid;
        }
        RequestType::ExecuteHook
    }

    /// Fill the environment for a validated request.
    pub fn build_env(&self, request: &Request, builder: &mut EnvBuilder) -> (r: Result<
        (),
        FisherError,
    >)
        requires
            gitlab_build_env_pre(request@),
        ensures
            r is Ok,
            final(builder)@ == gitlab_build_env_spec(request@, old(builder)@).0,
    {
        let req = match request {
            Request::Web(req) => req,
            Request::Status(_) => {
                return Ok(());
            },
        };
        let header = req.headers.get("X-Gitlab-Event").unwrap();
        let event = normalize_event_name(header.as_str()).to_owned();
        builder.add_env("EVENT", event.as_str());
        Ok(())
    }
}

impl Clone for GitLabProvider {
    /// A copy with the same abstract value.
    fn clone(&self) -> (r: Self)
        ensures
            r@ == self@,
    {
        GitLabProvider { config: self.config.clone() }
    }
}

} // verus!
