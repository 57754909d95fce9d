//! The web front-end's decisions: routing, the JSON response envelope,
//! query-string parameters and source-address selection. The HTTP
//! listener around them only moves bytes.

use crate::dict::{pairs_map, StrDict};
use crate::hook::{hook_validate_spec, Hook, HookOutcome, HookV};
use crate::processor::{HealthDetails, Job, JobV};
use crate::requests::{Request, RequestV, WebRequest, WebRequestV};
use crate::strutil::{dec_of, find_char, str_eq, u64_to_dec};
use vstd::prelude::*;
use vstd::string::{StrSliceExecFns, StringExecFns};

verus! {

/// The HTTP methods the front-end distinguishes.
#[derive(Clone, Copy, PartialEq, Eq, Structural, Debug)]
pub enum HttpMethod {
    Get,
    Post,
    Other,
}

/// The JSON envelope every response carries.
pub enum JsonResponse {
    NotFound,
    Forbidden,
    Okay,
    HealthStatus(HealthDetails),
}

/// The exact characters of a rendered envelope.
pub open spec fn json_response_chars(r: JsonResponse) -> Seq<char> {
    match r {
        JsonResponse::NotFound => "{\"status\":\"not_found\"}"@,
        JsonResponse::Forbidden => "{\"status\":\"forbidden\"}"@,
        JsonResponse::Okay => "{\"status\":\"ok\"}"@,
        JsonResponse::HealthStatus(d) => "{\"status\":\"ok\",\"result\":{\"active_jobs\":"@ + dec_of(
            d.active_jobs as nat,
        ) + ",\"queue_size\":"@ + dec_of(d.queue_size as nat) + "}}"@,
    }
}

impl JsonResponse {
    /// Render the envelope.
    pub fn to_json(&self) -> (r: String)
        ensures
            r@ == json_response_chars(*self),
    {
        match self {
            JsonResponse::NotFound => "{\"status\":\"not_found\"}".to_owned(),
            JsonResponse::Forbidden => "{\"status\":\"forbidden\"}".to_owned(),
            JsonResponse::Okay => "{\"status\":\"ok\"}".to_owned(),
            JsonResponse::HealthStatus(d) => {
                let mut s = "{\"status\":\"ok\",\"result\":{\"active_jobs\":".to_owned();
                let active = u64_to_dec(d.active_jobs as u64);
                s.append(active.as_str());
                s.append(",\"queue_size\":");
                let queued = u64_to_dec(d.queue_size as u64);
                s.append(queued.as_str());
                s.append("}}");
                proof {
                    assert(s@ =~= json_response_chars(*self));
                }
                s
            },
        }
    }
}

/// Whether a path names a hook: `/hook/` followed by a nonempty name
/// without further slashes.
pub open spec fn is_hook_path(path: Seq<char>) -> bool {
    &&& path.len() > 6
    &&& path.subrange(0, 6) == "/hook/"@
    &&& forall|j: int| 6 <= j < path.len() ==> path[j] != '/'
}

/// Abstract value of a [`RouteOutcome`].
pub ghost enum RouteOutcomeV {
    NotFound,
    Forbidden,
    OkNoJob,
    OkJob(JobV),
    HealthQuery,
}

/// What the front-end must do with a request: answer one of the fixed
/// envelopes, also enqueue a job, or ask the processor for a health
/// snapshot first.
pub enum RouteOutcome {
    NotFound,
    Forbidden,
    OkNoJob,
    OkJob(Job),
    HealthQuery,
}

impl View for RouteOutcome {
    type V = RouteOutcomeV;

    open spec fn view(&self) -> RouteOutcomeV {
        match self {
            RouteOutcome::NotFound => RouteOutcomeV::NotFound,
            RouteOutcome::Forbidden => RouteOutcomeV::Forbidden,
            RouteOutcome::OkNoJob => RouteOutcomeV::OkNoJob,
            RouteOutcome::OkJob(j) => RouteOutcomeV::OkJob(j@),
            RouteOutcome::HealthQuery => RouteOutcomeV::HealthQuery,
        }
    }
}

/// How a request is routed: a hook path resolves the name (missing hooks
/// are not found) and lets the hook classify the request — rejection is
/// forbidden, a ping is acknowledged without a job, and an accepted
/// request becomes a job bound to the chosen provider; `GET /health` is
/// answered when enabled and forbidden when not; everything else is not
/// found.
pub open spec fn route_spec(
    hooks: Map<Seq<char>, HookV>,
    enable_health: bool,
    method: HttpMethod,
    path: Seq<char>,
    req: WebRequestV,
) -> RouteOutcomeV {
    if (method is Get || method is Post) && is_hook_path(path) {
        let name = path.skip(6);
        if !hooks.contains_key(name) {
            RouteOutcomeV::NotFound
        } else {
            match hook_validate_spec(hooks[name], RequestV::Web(req)) {
                HookOutcome::Rejected => RouteOutcomeV::Forbidden,
                HookOutcome::Pong => RouteOutcomeV::OkNoJob,
                HookOutcome::Run(p) => RouteOutcomeV::OkJob(
                    JobV { hook: hooks[name], request: RequestV::Web(req), provider: p },
                ),
            }
        }
    } else if method is Get && path == "/health"@ {
        if enable_health {
            RouteOutcomeV::HealthQuery
        } else {
            RouteOutcomeV::Forbidden
        }
    } else {
        RouteOutcomeV::NotFound
    }
}

/// Route one translated request.
#[verifier::loop_isolation(false)]
pub fn route(
    hooks: &StrDict<Hook>,
    enable_health: bool,
    method: HttpMethod,
    path: &str,
    request: WebRequest,
) -> (r: RouteOutcome)
    ensures
        r@ == route_spec(hooks@, enable_health, method, path@, request@),
{
    let n = path.unicode_len();
    let is_get = matches!(method, HttpMethod::Get);
    let is_post = matches!(method, HttpMethod::Post);
    if (is_get || is_post) && n > 6 && str_eq(path.substring_char(0, 6), "/hook/") {
        let name = path.substring_char(6, n);
        proof {
            assert(name@ =~= path@.skip(6));
        }
        let found_slash = find_char(name, '/');
        if found_slash.is_none() {
            proof {
                assert forall|j: int| 6 <= j < path@.len() implies path@[j] != '/' by {
                    assert(name@[j - 6] == path@[j]);
                }
                assert(is_hook_path(path@));
            }
            let hook = match hooks.get(name) {
                Some(hook) => hook,
                None => {
                    return RouteOutcome::NotFound;
                },
            };
            let req = Request::Web(request);
            return match hook.validate(&req) {
                HookOutcome::Rejected => RouteOutcome::Forbidden,
                HookOutcome::Pong => RouteOutcome::OkNoJob,
                HookOutcome::Run(p) => RouteOutcome::OkJob(Job::new(hook.clone(), req, p)),
            };
        }
        proof {
            let k = found_slash->Some_0 as int;
            assert(name@[k] == '/');
            assert(path@[k + 6] == '/');
            assert(!is_hook_path(path@));
            reveal_strlit("/hook/");
            reveal_strlit("/health");
            if path@ == "/health"@ {
                assert(path@.subrange(0, 6)[2] == "/health"@[2]);
                assert("/hook/"@[2] == 'o');
                assert(false);
            }
        }
        return RouteOutcome::NotFound;
    }
    proof {
        if is_hook_path(path@) {
            assert(path@.subrange(0, 6) =~= "/hook/"@);
        }
    }
    if is_get && str_eq(path, "/health") {
        if enable_health {
            RouteOutcome::HealthQuery
        } else {
            RouteOutcome::Forbidden
        }
    } else {
        RouteOutcome::NotFound
    }
}

/// Whether a URI splits into this path and this query: the path runs to
/// the first question mark, the query is what follows it; a URI without
/// one is all path.
pub open spec fn uri_split_ok(uri: Seq<char>, path: Seq<char>, query: Seq<char>) -> bool {
    if exists|i: int| 0 <= i < uri.len() && uri[i] == '?' {
        exists|i: int|
            0 <= i < uri.len() && #[trigger] uri[i] == '?' && (forall|j: int|
                0 <= j < i ==> uri[j] != '?') && path == uri.subrange(0, i) && query == uri.skip(
                i + 1,
            )
    } else {
        path == uri && query == Seq::<char>::empty()
    }
}

/// Split a request URI at the first question mark.
pub fn split_query<'a>(uri: &'a str) -> (r: (&'a str, &'a str))
    ensures
        uri_split_ok(uri@, r.0@, r.1@),
{
    let n = uri.unicode_len();
    match find_char(uri, '?') {
        Some(i) => {
            let path = uri.substring_char(0, i);
            let query = uri.substring_char(i + 1, n);
            proof {
                assert(query@ =~= uri@.skip(i as int + 1));
            }
            (path, query)
        },
        None => {
            proof {
                reveal_strlit("");
                assert("".view() =~= Seq::<char>::empty());
            }
            (uri, "")
        },
    }
}

/// The pieces of a string split on commas: the separators vanish and
/// the pieces keep their order; a string without commas is one piece.
pub open spec fn split_commas(s: Seq<char>) -> Seq<Seq<char>>
    decreases s.len(),
{
    if s.len() == 0 {
        seq![Seq::<char>::empty()]
    } else if s[0] == ',' {
        seq![Seq::<char>::empty()] + split_commas(s.drop_first())
    } else {
        let rest = split_commas(s.drop_first());
        seq![seq![s[0]] + rest[0]] + rest.drop_first()
    }
}

/// Splitting yields at least one piece.
proof fn lemma_split_commas_nonempty(s: Seq<char>)
    ensures
        split_commas(s).len() >= 1,
    decreases s.len(),
{
    if s.len() > 0 {
        lemma_split_commas_nonempty(s.drop_first());
    }
}

/// A string without commas is a single piece.
proof fn lemma_split_no_comma(s: Seq<char>)
    requires
        forall|j: int| 0 <= j < s.len() ==> s[j] != ',',
    ensures
        split_commas(s) =~~= seq![s],
    decreases s.len(),
{
    if s.len() > 0 {
        lemma_split_commas_nonempty(s.drop_first());
        lemma_split_no_comma(s.drop_first());
        assert(seq![s[0]] + s.drop_first() =~= s);
    }
}

/// Splitting takes the piece before the first comma off the front.
proof fn lemma_split_at_first_comma(s: Seq<char>, i: int)
    requires
        0 <= i < s.len(),
        s[i] == ',',
        forall|j: int| 0 <= j < i ==> s[j] != ',',
    ensures
        split_commas(s) =~~= seq![s.take(i)] + split_commas(s.skip(i + 1)),
    decreases i,
{
    lemma_split_commas_nonempty(s.drop_first());
    if i == 0 {
        assert(s.take(0) =~= Seq::<char>::empty());
        assert(s.skip(1) =~= s.drop_first());
    } else {
        let d = s.drop_first();
        assert(d[i - 1] == ',');
        lemma_split_at_first_comma(d, i - 1);
        lemma_split_commas_nonempty(d.skip(i));
        let rest = split_commas(d);
        assert(rest[0] == d.take(i - 1));
        assert(rest.drop_first() =~~= split_commas(d.skip(i)));
        assert(seq![s[0]] + d.take(i - 1) =~= s.take(i));
        assert(d.skip(i) =~= s.skip(i + 1));
    }
}

/// Split a string on commas.
pub fn split_commas_exec(s: &str) -> (r: Vec<String>)
    ensures
        r.deep_view() =~~= split_commas(s@),
    decreases s@.len(),
{
    let n = s.unicode_len();
    match find_char(s, ',') {
        None => {
            proof {
                lemma_split_no_comma(s@);
            }
            let mut v: Vec<String> = Vec::new();
            v.push(s.to_owned());
            v
        },
        Some(i) => {
            proof {
                lemma_split_at_first_comma(s@, i as int);
            }
            let head = s.substring_char(0, i).to_owned();
            let rest_str = s.substring_char(i + 1, n);
            proof {
                assert(rest_str@ =~= s@.skip(i as int + 1));
            }
            let mut rest = split_commas_exec(rest_str);
            let mut v: Vec<String> = Vec::new();
            v.push(head);
            v.append(&mut rest);
            proof {
                assert(v.deep_view() =~~= seq![s@.take(i as int)] + split_commas(
                    s@.skip(i as int + 1),
                ));
            }
            v
        },
    }
}

/// A string with its leading and trailing spaces removed.
pub open spec fn trim_spaces(s: Seq<char>) -> Seq<char>
    decreases s.len(),
{
    if s.len() > 0 && s[0] == ' ' {
        trim_spaces(s.drop_first())
    } else if s.len() > 0 && s.last() == ' ' {
        trim_spaces(s.drop_last())
    } else {
        s
    }
}

/// Remove leading and trailing spaces.
pub fn trim_spaces_exec(s: &str) -> (r: String)
    ensures
        r@ == trim_spaces(s@),
    decreases s@.len(),
{
    let n = s.unicode_len();
    if n > 0 && s.get_char(0) == ' ' {
        let sub = s.substring_char(1, n);
        proof {
            assert(sub@ =~= s@.drop_first());
        }
        trim_spaces_exec(sub)
    } else if n > 0 && s.get_char(n - 1) == ' ' {
        let sub = s.substring_char(0, n - 1);
        proof {
            assert(sub@ =~= s@.drop_last());
        }
        trim_spaces_exec(sub)
    } else {
        s.to_owned()
    }
}

/// The entries of an `X-Forwarded-For` header: comma-separated, each
/// with its surrounding spaces removed.
pub open spec fn forwarded_entries(h: Seq<char>) -> Seq<Seq<char>> {
    split_commas(h).map_values(|e: Seq<char>| trim_spaces(e))
}

/// The source address of a request: with `N > 0` reverse proxies in
/// front and a forwarded-for header carrying more than `N` entries, the
/// `(N+1)`-th entry from the right; otherwise the TCP peer.
pub open spec fn source_spec(peer: Seq<char>, xff: Option<Seq<char>>, behind: Option<u8>) -> Seq<
    char,
> {
    match (behind, xff) {
        (Some(k), Some(h)) => {
            let entries = forwarded_entries(h);
            if k > 0 && entries.len() > k as int {
                entries[entries.len() - 1 - k as int]
            } else {
                peer
            }
        },
        _ => peer,
    }
}

/// Pick the source address to record for a request.
#[verifier::loop_isolation(false)]
pub fn source_address(peer: &str, forwarded_for: Option<&str>, behind_proxies: Option<u8>) -> (r:
    String)
    ensures
        r@ == source_spec(
            peer@,
            match forwarded_for {
                Some(h) => Some(h@),
                None => None,
            },
            behind_proxies,
        ),
{
    let (k, h) = match (behind_proxies, forwarded_for) {
        (Some(k), Some(h)) => (k, h),
        _ => {
            return peer.to_owned();
        },
    };
    if k == 0 {
        return peer.to_owned();
    }
    let parts = split_commas_exec(h);
    let mut entries: Vec<String> = Vec::new();
    let n = parts.len();
    let mut i: usize = 0;
    proof {
        assert(forwarded_entries(h@).len() == n as int);
    }
    while i < n
        invariant
            i <= n,
            entries.deep_view() =~= forwarded_entries(h@).take(i as int),
        decreases n - i,
    {
        let t = trim_spaces_exec(parts[i].as_str());
        proof {
            assert(parts.deep_view()[i as int] == split_commas(h@)[i as int]);
        }
        entries.push(t);
        proof {
            assert(entries.deep_view() =~= forwarded_entries(h@).take(i as int + 1));
        }
        i = i + 1;
    }
    proof {
        assert(forwarded_entries(h@).take(n as int) =~= forwarded_entries(h@));
    }
    let kk = k as usize;
    if entries.len() > kk {
        let idx = entries.len() - 1 - kk;
        let r = entries[idx].clone();
        proof {
            assert(r@ == entries.deep_view()[idx as int]);
        }
        r
    } else {
        peer.to_owned()
    }
}

/// The key/value pairs a query string decodes to under URL form
/// decoding, in order: what `url::form_urlencoded::parse` yields, a
/// function of the characters alone.
pub uninterp spec fn form_decoded(q: Seq<char>) -> Seq<(Seq<char>, Seq<char>)>;

/// Relies on `url::form_urlencoded::parse`: the standard form decoding
/// of a query string, deterministic in its input.
#[verifier::external_body]
fn form_urlencoded_pairs(q: &str) -> (r: Vec<(String, String)>)
    ensures
        r.deep_view() == form_decoded(q@),
{
    url::form_urlencoded::parse(q.as_bytes()).into_owned().collect()
}

/// Decode a query string into a parameter dictionary; a repeated key
/// keeps its last value.
pub fn params_from_query(q: &str) -> (r: StrDict<String>)
    ensures
        r@ == pairs_map(form_decoded(q@)),
{
    let pairs = form_urlencoded_pairs(q);
    crate::dict::dict_from_pairs(pairs)
}

} // verus!
