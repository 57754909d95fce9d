//! The GitHub provider: header checks, HMAC-SHA1 signature
//! verification, event whitelisting, and push-specific environment.

use hmac::Mac;

use crate::errors::{FisherError, FisherErrorV};
use crate::env_builder::{EnvBuilder, EnvBuilderV};
use crate::json::{json_of, obj_get, parse_json, Json};
use crate::providers::{parsed_config, parse_events_config, EventsConfig, EventsConfigV};
use crate::requests::{Request, RequestType, RequestV, WebRequestV};
use crate::strutil::{contains_string, find_char, from_hex, hex_decode, str_eq};
use vstd::prelude::*;
use vstd::string::StrSliceExecFns;

verus! {

/// Whether a name is one of the events GitHub documents.
pub open spec fn is_github_event(e: Seq<char>) -> bool {
    ||| e == "commit_comment"@
    ||| e == "create"@
    ||| e == "delete"@
    ||| e == "deployment"@
    ||| e == "deployment_status"@
    ||| e == "fork"@
    ||| e == "gollum"@
    ||| e == "issue_comment"@
    ||| e == "issues"@
    ||| e == "label"@
    ||| e == "member"@
    ||| e == "membership"@
    ||| e == "milestone"@
    ||| e == "organization"@
    ||| e == "page_build"@
    ||| e == "project_card"@
    ||| e == "project_column"@
    ||| e == "project"@
    ||| e == "public"@
    ||| e == "pull_reques_review_comment"@
    ||| e == "pull_request_review"@
    ||| e == "pull_request"@
    ||| e == "push"@
    ||| e == "repository"@
    ||| e == "release"@
    ||| e == "status"@
    ||| e == "team"@
    ||| e == "team_add"@
    ||| e == "watch"@
}

/// Whether a name is one of the events GitHub documents.
pub fn is_github_event_exec(e: &str) -> (r: bool)
    ensures
        r == is_github_event(e@),
{
    str_eq(e, "commit_comment") || str_eq(e, "create") || str_eq(e, "delete") || str_eq(
        e,
        "deployment",
    ) || str_eq(e, "deployment_status") || str_eq(e, "fork") || str_eq(e, "gollum") || str_eq(
        e,
        "issue_comment",
    ) || str_eq(e, "issues") || str_eq(e, "label") || str_eq(e, "member") || str_eq(e, "membership")
        || str_eq(e, "milestone") || str_eq(e, "organization") || str_eq(e, "page_build") || str_eq(
        e,
        "project_card",
    ) || str_eq(e, "project_column") || str_eq(e, "project") || str_eq(e, "public") || str_eq(
        e,
        "pull_reques_review_comment",
    ) || str_eq(e, "pull_request_review") || str_eq(e, "pull_request") || str_eq(e, "push")
        || str_eq(e, "repository") || str_eq(e, "release") || str_eq(e, "status") || str_eq(
        e,
        "team",
    ) || str_eq(e, "team_add") || str_eq(e, "watch")
}

/// The first configured event name that is not a GitHub event.
pub open spec fn first_not_github(evs: Seq<Seq<char>>) -> Option<Seq<char>>
    decreases evs.len(),
{
    if evs.len() == 0 {
        None
    } else if !is_github_event(evs[0]) {
        Some(evs[0])
    } else {
        first_not_github(evs.drop_first())
    }
}

/// The first bad event name in a configuration, if any.
pub open spec fn github_bad_event(c: EventsConfigV) -> Option<Seq<char>> {
    match c.events {
        None => None,
        Some(evs) => first_not_github(evs),
    }
}

/// What configuring a GitHub provider yields: the parsed configuration,
/// or the error naming what was wrong.
pub open spec fn github_new_spec(config: Seq<char>) -> Result<EventsConfigV, FisherErrorV> {
    match parsed_config(config) {
        None => Err(FisherErrorV::InvalidConfig),
        Some(c) => match github_bad_event(c) {
            Some(ev) => Err(FisherErrorV::ProviderGitHubInvalidEventName(ev)),
            None => Ok(c),
        },
    }
}

/// The HMAC-SHA1 tag of a message under a key.
pub uninterp spec fn hmac_sha1(key: Seq<char>, message: Seq<char>) -> Seq<u8>;

/// Relies on `hmac::Hmac<sha1::Sha1>`: `verify_slice` accepts exactly
/// the HMAC-SHA1 tag of the processed input under the key, and HMAC
/// accepts a key of any length, so `new_from_slice` cannot fail. The tag
/// is a function of key and message alone.
#[verifier::external_body]
fn hmac_sha1_matches(key: &str, message: &str, tag: &[u8]) -> (r: bool)
    ensures
        r == (tag@ == hmac_sha1(key@, message@)),
{
    let mut mac = match hmac::Hmac::<sha1::Sha1>::new_from_slice(key.as_bytes()) {
        Ok(mac) => mac,
        Err(_) => {
            return false;
        },
    };
    mac.update(message.as_bytes());
    mac.verify_slice(tag).is_ok()
}

/// Whether a raw `X-Hub-Signature` header authenticates a payload: the
/// part before the first `=` must name `sha1`, and the rest must be the
/// hex form of the HMAC-SHA1 tag of the payload under the secret.
pub open spec fn signature_valid(secret: Seq<char>, payload: Seq<char>, raw: Seq<char>) -> bool {
    exists|i: int|
        0 <= i < raw.len() && #[trigger] raw[i] == '=' && (forall|j: int|
            0 <= j < i ==> raw[j] != '=') && raw.subrange(0, i) == "sha1"@ && (hex_decode(
            raw.skip(i + 1),
        ) matches Some(sig) && sig == hmac_sha1(secret, payload))
}

/// Check a raw signature header against a payload and a secret.
pub fn verify_signature(secret: &str, payload: &str, raw_signature: &str) -> (r: bool)
    ensures
        r == signature_valid(secret@, payload@, raw_signature@),
{
    let ghost raw = raw_signature@;
    let n = raw_signature.unicode_len();
    let eq_pos = match find_char(raw_signature, '=') {
        Some(i) => i,
        None => {
            return false;
        },
    };
    proof {
        assert forall|i2: int|
            0 <= i2 < raw.len() && raw[i2] == '=' && (forall|j: int|
                0 <= j < i2 ==> raw[j] != '=') implies i2 == eq_pos as int by {
            if i2 > eq_pos as int {
                assert(raw[eq_pos as int] != '=');
            }
        };
    }
    let algo = raw_signature.substring_char(0, eq_pos);
    let hexpart = raw_signature.substring_char(eq_pos + 1, n);
    proof {
        assert(hexpart@ =~= raw.skip(eq_pos as int + 1));
    }
    let ok_algo = str_eq(algo, "sha1");
    if !ok_algo {
        return false;
    }
    let sig = match from_hex(hexpart) {
        Some(sig) => sig,
        None => {
            return false;
        },
    };
    hmac_sha1_matches(secret, payload, sig.as_slice())
}

/// The `ref` and `head_commit.id` fields of a push payload, if the
/// payload has the documented shape.
pub open spec fn push_fields(j: Option<Json>) -> Option<(Seq<char>, Seq<char>)> {
    match j {
        Some(Json::Object(fields)) => match (
            obj_get(fields@, "ref"@),
            obj_get(fields@, "head_commit"@),
        ) {
            (Some(Json::Str(rf)), Some(Json::Object(hc))) => match obj_get(hc@, "id"@) {
                Some(Json::Str(id)) => Some((rf@, id@)),
                _ => None,
            },
            _ => None,
        },
        _ => None,
    }
}

/// How the GitHub provider classifies a request: the three GitHub
/// headers must be present, the signature must check out when a secret
/// is configured, the event must be known (or `ping`) and whitelisted
/// (or `ping`), and the body must be JSON; `ping` acknowledges, anything
/// else runs the hook.
pub open spec fn github_validate_spec(c: EventsConfigV, r: RequestV) -> RequestType {
    match r {
        RequestV::Web(req) => {
            if !(req.headers.contains_key("X-GitHub-Event"@) && req.headers.contains_key(
                "X-Hub-Signature"@,
            ) && req.headers.contains_key("X-GitHub-Delivery"@)) {
                RequestType::Invalid
            } else if c.secret matches Some(sec) && !signature_valid(
                sec,
                req.body,
                req.headers["X-Hub-Signature"@],
            ) {
                RequestType::Invalid
            } else {
                let ev = req.headers["X-GitHub-Event"@];
                if !(is_github_event(ev) || ev == "ping"@) {
                    RequestType::Invalid
                } else if c.events matches Some(evs) && !(evs.contains(ev) || ev == "ping"@) {
                    RequestType::Invalid
                } else if json_of(req.body) is None {
                    RequestType::Invalid
                } else if ev == "ping"@ {
                    RequestType::Ping
                } else {
                    RequestType::ExecuteHook
                }
            }
        },
        RequestV::Status(_) => RequestType::Invalid,
    }
}

/// `build_env` reads the event and delivery headers without checking:
/// they are present on every request validation lets through.
pub open spec fn github_build_env_pre(r: RequestV) -> bool {
    match r {
        RequestV::Web(req) => req.headers.contains_key("X-GitHub-Event"@)
            && req.headers.contains_key("X-GitHub-Delivery"@),
        RequestV::Status(_) => true,
    }
}

/// What the GitHub provider leaves in the builder, and whether it
/// succeeds: `EVENT` and `DELIVERY_ID` always; `PUSH_REF` and
/// `PUSH_HEAD` when the event is `push`, the whitelist is configured
/// and lists `push`, and the payload has the documented shape — a push
/// payload of another shape is an error.
pub open spec fn github_build_env_spec(c: EventsConfigV, r: RequestV, before: EnvBuilderV) -> (
    EnvBuilderV,
    Result<(), FisherErrorV>,
) {
    match r {
        RequestV::Web(req) => {
            let ev = req.headers["X-GitHub-Event"@];
            let base = before.env.insert("EVENT"@, ev).insert(
                "DELIVERY_ID"@,
                req.headers["X-GitHub-Delivery"@],
            );
            if c.events matches Some(evs) && evs.contains(ev) && ev == "push"@ {
                match push_fields(json_of(req.body)) {
                    Some(f) => (
                        EnvBuilderV {
                            env: base.insert("PUSH_REF"@, f.0).insert("PUSH_HEAD"@, f.1),
                            files: before.files,
                        },
                        Ok(()),
                    ),
                    None => (
                        EnvBuilderV { env: base, files: before.files },
                        Err(FisherErrorV::InvalidConfig),
                    ),
                }
            } else {
                (EnvBuilderV { env: base, files: before.files }, Ok(()))
            }
        },
        RequestV::Status(_) => (before, Ok(())),
    }
}

/// A web request that lacks any of the three GitHub headers is invalid,
/// whatever the configuration says.
pub proof fn lemma_github_missing_headers_invalid(c: EventsConfigV, r: WebRequestV)
    requires
        !r.headers.contains_key("X-GitHub-Event"@) || !r.headers.contains_key("X-Hub-Signature"@)
            || !r.headers.contains_key("X-GitHub-Delivery"@),
    ensures
        github_validate_spec(c, RequestV::Web(r)) == RequestType::Invalid,
{
}

/// Validation only lets requests through whose headers `build_env`
/// reads, so running the chosen provider cannot go wrong on a missing
/// header.
pub proof fn lemma_github_validate_implies_build_env_pre(c: EventsConfigV, r: RequestV)
    requires
        github_validate_spec(c, r) != RequestType::Invalid,
    ensures
        github_build_env_pre(r),
{
}

/// A JSON document that denotes a configuration exactly: parsing the
/// serialized form of any configuration gives the configuration back,
/// so equal configurations accept and reject the same requests.
#[verifier::loop_isolation(false)]
pub fn github_config_to_json(c: &EventsConfig) -> (j: Json)
    ensures
        crate::providers::config_of_json(j) == Some(c@),
{
    proof {
        reveal_strlit("secret");
        reveal_strlit("events");
    }
    let mut fields: Vec<(String, Json)> = Vec::new();
    if let Some(secret) = &c.secret {
        fields.push(("secret".to_owned(), Json::Str(secret.clone())));
    }
    if let Some(events) = &c.events {
        let mut items: Vec<Json> = Vec::new();
        let n = events.len();
        let mut i: usize = 0;
        while i < n
            invariant
                i <= n,
                n == events@.len(),
                items@.len() == i,
                forall|k: int| 0 <= k < i ==> items@[k] is Str,
                items@.map_values(|x: Json| crate::providers::str_content(x)) =~= events.deep_view(
                ).take(i as int),
            decreases n - i,
        {
            items.push(Json::Str(events[i].clone()));
            proof {
                assert(items@.map_values(|x: Json| crate::providers::str_content(x))
                    =~= events.deep_view().take(i as int + 1));
            }
            i = i + 1;
        }
        proof {
            assert(events.deep_view().take(n as int) =~= events.deep_view());
        }
        fields.push(("events".to_owned(), Json::Array(items)));
    }
    let j = Json::Object(fields);
    proof {
        assert("secret"@[0] == 's');
        assert("events"@[0] == 'e');
        assert("secret"@ != "events"@) by {
            if "secret"@ == "events"@ {
                assert("secret"@[0] == "events"@[0]);
            }
        }
        let fs = j->Object_0@;
        if c.secret is Some {
            assert(fs[0].0@ == "secret"@);
            assert(obj_get(fs, "secret"@) == Some(fs[0].1));
            if c.events is Some {
                assert(fs.len() == 2);
                assert(fs.drop_first() =~= seq![fs[1]]);
                assert(fs[1].0@ == "events"@);
                assert(obj_get(fs, "events"@) == obj_get(fs.drop_first(), "events"@));
                assert(fs.drop_first()[0] == fs[1]);
                assert(fs.drop_first().len() == 1);
                assert(obj_get(fs.drop_first(), "events"@) == Some(fs[1].1));
                assert(obj_get(fs, "events"@) == Some(fs[1].1));
            } else {
                assert(fs.drop_first() =~= Seq::<(String, Json)>::empty());
                assert(obj_get(fs, "events"@) is None);
            }
        } else {
            if c.events is Some {
                assert(fs.len() == 1);
                assert(fs[0].0@ == "events"@);
                assert(obj_get(fs, "events"@) == Some(fs[0].1));
                assert(fs.drop_first() =~= Seq::<(String, Json)>::empty());
                assert(obj_get(fs, "secret"@) == obj_get(fs.drop_first(), "secret"@));
                assert(obj_get(fs, "secret"@) is None);
            } else {
                assert(fs =~= Seq::<(String, Json)>::empty());
            }
        }
        assert(crate::providers::config_of_json(j) == Some(c@));
    }
    j
}

/// The GitHub webhook validator.
pub struct GitHubProvider {
    config: EventsConfig,
}

impl View for GitHubProvider {
    type V = EventsConfigV;

    closed spec fn view(&self) -> EventsConfigV {
        self.config@
    }
}

impl GitHubProvider {
    /// Parse a GitHub configuration, rejecting unknown event names.
    #[verifier::loop_isolation(false)]
    pub fn new(config: &str) -> (r: Result<Self, FisherError>)
        ensures
            match r {
                Ok(p) => github_new_spec(config@) == Ok::<_, FisherErrorV>(p@),
                Err(e) => github_new_spec(config@) == Err::<EventsConfigV, _>(e@),
            },
    {
        let c = match parse_events_config(config) {
            Some(c) => c,
            None => {
                return Err(FisherError::InvalidConfig);
            },
        };
        if let Some(events) = &c.events {
            let ghost evsv = events.deep_view();
            let n = events.len();
            let mut i: usize = 0;
            proof {
                assert(evsv.skip(0) =~= evsv);
                assert(c@.events == Some(evsv));
            }
            while i < n
                invariant
                    i <= n,
                    n == events@.len(),
                    evsv == events.deep_view(),
                    first_not_github(evsv) == first_not_github(evsv.skip(i as int)),
                decreases n - i,
            {
                let ghost tail = evsv.skip(i as int);
                proof {
                    assert(tail[0] == evsv[i as int]);
                    assert(evsv[i as int] == events@[i as int]@);
                    assert(tail.drop_first() =~= evsv.skip(i as int + 1));
                }
                if !is_github_event_exec(events[i].as_str()) {
                    return Err(FisherError::ProviderGitHubInvalidEventName(events[i].clone()));
                }
                i = i + 1;
            }
            proof {
                assert(evsv.skip(n as int) =~= Seq::<Seq<char>>::empty());
            }
        }
        Ok(GitHubProvider { config: c })
    }

    /// Classify a request.
    pub fn validate(&self, request: &Request) -> (t: RequestType)
        ensures
            t == github_validate_spec(self@, request@),
    {
        let req = match request {
            Request::Web(req) => req,
            Request::Status(_) => {
                return RequestType::Invalid;
            },
        };
        if !req.headers.contains_key("X-GitHub-Event") {
            return RequestType::Invalid;
        }
        if !req.headers.contains_key("X-Hub-Signature") {
            return RequestType::Invalid;
        }
        if !req.headers.contains_key("X-GitHub-Delivery") {
            return RequestType::Invalid;
        }
        if let Some(secret) = &self.config.secret {
            let signature = req.headers.get("X-Hub-Signature").unwrap();
            if !verify_signature(secret.as_str(), req.body.as_str(), signature.as_str()) {
                return RequestType::Invalid;
            }
        }
        let event = req.headers.get("X-GitHub-Event").unwrap();
        let is_ping = str_eq(event.as_str(), "ping");
        if !(is_github_event_exec(event.as_str()) || is_ping) {
            return RequestType::Invalid;
        }
        if let Some(events) = &self.config.events {
            if !(contains_string(events, event.as_str()) || is_ping) {
                return RequestType::Invalid;
            }
        }
        if parse_json(req.body.as_str()).is_none() {
            return RequestType::Invalid;
        }
        if is_ping {
            RequestType::Ping
        } else {
            RequestType::ExecuteHook
        }
    }

    /// Fill the environment for a validated request.
    pub fn build_env(&self, request: &Request, builder: &mut EnvBuilder) -> (r: Result<
        (),
        FisherError,
    >)
        requires
            github_build_env_pre(request@),
        ensures
            final(builder)@ == github_build_env_spec(self@, request@, old(builder)@).0,
            match r {
                Ok(()) => github_build_env_spec(self@, request@, old(builder)@).1 is Ok,
                Err(e) => github_build_env_spec(self@, request@, old(builder)@).1 == Err::<(), _>(
                    e@,
                ),
            },
    {
        let req = match request {
            Request::Web(req) => req,
            Request::Status(_) => {
                return Ok(());
            },
        };
        let event = req.headers.get("X-GitHub-Event").unwrap().clone();
        let delivery = req.headers.get("X-GitHub-Delivery").unwrap();
        builder.add_env("EVENT", event.as_str());
        builder.add_env("DELIVERY_ID", delivery.as_str());
        let whitelisted = match &self.config.events {
            Some(events) => contains_string(events, event.as_str()),
            None => false,
        };
        if whitelisted && str_eq(event.as_str(), "push") {
            let parsed = parse_json(req.body.as_str());
            let fields = match parsed {
                Some(Json::Object(fields)) => fields,
                _ => {
                    return Err(FisherError::InvalidConfig);
                },
            };
            let rf = match crate::json::json_obj_get(&fields, "ref") {
                Some(Json::Str(rf)) => rf.clone(),
                _ => {
                    return Err(FisherError::InvalidConfig);
                },
            };
            let hc = match crate::json::json_obj_get(&fields, "head_commit") {
                Some(Json::Object(hc)) => hc,
                _ => {
                    return Err(FisherError::InvalidConfig);
                },
            };
            let id = match crate::json::json_obj_get(hc, "id") {
                Some(Json::Str(id)) => id,
                _ => {
                    return Err(FisherError::InvalidConfig);
                },
            };
            builder.add_env("PUSH_REF", rf.as_str());
            builder.add_env("PUSH_HEAD", id.as_str());
        }
        Ok(())
    }
}

impl Clone for GitHubProvider {
    /// A copy with the same abstract value.
    fn clone(&self) -> (r: Self)
        ensures
            r@ == self@,
    {
        GitHubProvider { config: self.config.clone() }
    }
}

} // verus!
