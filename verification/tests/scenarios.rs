use fisher::dict::StrDict;
use fisher::env_builder::EnvBuilder;
use fisher::errors::FisherError;
use fisher::hook::{load_hook, Hook, HookOutcome};
use fisher::processor::{job_build_env, Job, Processor, ProcessorAction, ProcessorInput};
use fisher::requests::{dummy_web_request, Request, RequestType, WebRequest};
use fisher::strutil::from_hex;
use fisher::web::{params_from_query, route, source_address, split_query, HttpMethod, JsonResponse, RouteOutcome};
use hmac::Mac;

fn sign(secret: &str, body: &str) -> String {
    let mut mac = hmac::Hmac::<sha1::Sha1>::new_from_slice(secret.as_bytes()).unwrap();
    mac.update(body.as_bytes());
    let bytes = mac.finalize().into_bytes();
    let mut s = String::from("sha1=");
    for b in bytes.iter() {
        s.push_str(&format!("{:02x}", b));
    }
    s
}

fn github_hook(config: &str) -> Hook {
    let line = format!("## Fisher-GitHub: {}", config);
    load_hook("hk".to_string(), "hooks/hk.sh".to_string(), &line).unwrap()
}

fn hooks_with(hook: Hook) -> StrDict<Hook> {
    let mut hooks: StrDict<Hook> = StrDict::new();
    hooks.insert("hk".to_string(), hook);
    hooks
}

fn github_ping_request(signature: String, event: &str) -> WebRequest {
    let mut req = dummy_web_request();
    req.headers.insert("X-GitHub-Event".to_string(), event.to_string());
    req.headers.insert("X-GitHub-Delivery".to_string(), "abc".to_string());
    req.headers.insert("X-Hub-Signature".to_string(), signature);
    req.body = "{}".to_string();
    req
}

#[test]
fn github_ping_acknowledged_without_job() {
    let hooks = hooks_with(github_hook(r#"{"secret": "s"}"#));
    let req = github_ping_request(sign("s", "{}"), "ping");

    let outcome = route(&hooks, true, HttpMethod::Post, "/hook/hk", req);
    assert!(matches!(outcome, RouteOutcome::OkNoJob));
    assert_eq!(JsonResponse::Okay.to_json(), "{\"status\":\"ok\"}");

    // No job was enqueued, so the processor reports an idle pool.
    let mut processor = Processor::start(1);
    match processor.handle(ProcessorInput::HealthStatus) {
        ProcessorAction::Health(d) => {
            assert_eq!(d.active_jobs, 0);
            assert_eq!(d.queue_size, 0);
        },
        _ => panic!("expected a health reply"),
    }
}

#[test]
fn github_push_with_wrong_signature_is_forbidden() {
    let hooks = hooks_with(github_hook(r#"{"secret": "s"}"#));
    let wrong = sign("not-the-secret", "{}");
    let req = github_ping_request(wrong, "push");

    let outcome = route(&hooks, true, HttpMethod::Post, "/hook/hk", req);
    assert!(matches!(outcome, RouteOutcome::Forbidden));
    assert_eq!(JsonResponse::Forbidden.to_json(), "{\"status\":\"forbidden\"}");
}

#[test]
fn gitlab_normalized_event_reaches_environment() {
    let hook = load_hook(
        "hk".to_string(),
        "hooks/hk.sh".to_string(),
        r#"## Fisher-GitLab: {"events": ["Push"]}"#,
    )
    .unwrap();
    let hooks = hooks_with(hook);

    let mut req = dummy_web_request();
    req.headers.insert("X-Gitlab-Event".to_string(), "Push Hook".to_string());
    req.body = r#"{"a":"b"}"#.to_string();

    let outcome = route(&hooks, true, HttpMethod::Post, "/hook/hk", req);
    let job = match outcome {
        RouteOutcome::OkJob(job) => job,
        _ => panic!("expected a job"),
    };

    let mut b = EnvBuilder::new();
    job_build_env(&job, &mut b).unwrap();
    assert_eq!(b.env().get("EVENT").unwrap().as_str(), "Push");
}

fn standalone_job() -> Job {
    let hook = load_hook("hk".to_string(), "hooks/hk.sh".to_string(), "#!/bin/sh").unwrap();
    let outcome = hook.validate(&Request::Web(dummy_web_request()));
    let provider = match outcome {
        HookOutcome::Run(p) => p,
        _ => panic!("a zero-provider hook accepts any web request"),
    };
    Job::new(hook, Request::Web(dummy_web_request()), provider)
}

#[test]
fn backpressure_fills_queue_after_worker_cap() {
    let mut processor = Processor::start(2);

    let mut dispatched = 0;
    let mut queued = 0;
    for _ in 0..5 {
        match processor.handle(ProcessorInput::Job(standalone_job())) {
            ProcessorAction::Dispatch(_) => dispatched += 1,
            ProcessorAction::Nothing => queued += 1,
            _ => panic!("unexpected action"),
        }
    }
    assert_eq!(dispatched, 2);
    assert_eq!(queued, 3);

    match processor.handle(ProcessorInput::HealthStatus) {
        ProcessorAction::Health(d) => {
            assert_eq!(d.active_jobs, 2);
            assert_eq!(d.queue_size, 3);
        },
        _ => panic!("expected a health reply"),
    }
}

#[test]
fn graceful_stop_waits_for_running_job() {
    let mut processor = Processor::start(2);

    assert!(matches!(
        processor.handle(ProcessorInput::Job(standalone_job())),
        ProcessorAction::Dispatch(_)
    ));

    // Stop does not finish while the job runs.
    assert!(matches!(
        processor.handle(ProcessorInput::StopSignal),
        ProcessorAction::Nothing
    ));
    assert!(processor.stopping());

    // A later job is dropped silently.
    assert!(matches!(
        processor.handle(ProcessorInput::Job(standalone_job())),
        ProcessorAction::Nothing
    ));
    match processor.handle(ProcessorInput::HealthStatus) {
        ProcessorAction::Health(d) => {
            assert_eq!(d.active_jobs, 1);
            assert_eq!(d.queue_size, 0);
        },
        _ => panic!("expected a health reply"),
    }

    // The running job finishing completes the drain.
    assert!(matches!(
        processor.handle(ProcessorInput::JobEnded),
        ProcessorAction::Finished
    ));

    // A second stop finishes immediately.
    assert!(matches!(
        processor.handle(ProcessorInput::StopSignal),
        ProcessorAction::Finished
    ));
}

#[test]
fn unknown_hook_is_not_found() {
    let hooks: StrDict<Hook> = StrDict::new();
    let req = dummy_web_request();
    let outcome = route(&hooks, true, HttpMethod::Post, "/hook/does-not-exist", req);
    assert!(matches!(outcome, RouteOutcome::NotFound));
    assert_eq!(JsonResponse::NotFound.to_json(), "{\"status\":\"not_found\"}");
}

#[test]
fn health_can_be_disabled() {
    let hooks: StrDict<Hook> = StrDict::new();
    assert!(matches!(
        route(&hooks, true, HttpMethod::Get, "/health", dummy_web_request()),
        RouteOutcome::HealthQuery
    ));
    assert!(matches!(
        route(&hooks, false, HttpMethod::Get, "/health", dummy_web_request()),
        RouteOutcome::Forbidden
    ));
    assert!(matches!(
        route(&hooks, true, HttpMethod::Post, "/health", dummy_web_request()),
        RouteOutcome::NotFound
    ));
    assert!(matches!(
        route(&hooks, true, HttpMethod::Get, "/other", dummy_web_request()),
        RouteOutcome::NotFound
    ));
}

#[test]
fn zero_provider_hook_runs_any_web_request() {
    let hook = load_hook("hk".to_string(), "hooks/hk.sh".to_string(), "#!/bin/sh").unwrap();
    assert!(matches!(
        hook.validate(&Request::Web(dummy_web_request())),
        HookOutcome::Run(None)
    ));
}

#[test]
fn github_missing_headers_are_invalid() {
    let hook = github_hook("{}");
    let mut req = dummy_web_request();
    req.body = "{}".to_string();
    req.headers.insert("X-GitHub-Event".to_string(), "push".to_string());
    // No signature and no delivery header: the provider rejects.
    assert!(matches!(
        hook.validate(&Request::Web(req)),
        HookOutcome::Rejected
    ));
}

#[test]
fn hook_line_declares_provider() {
    let hook = load_hook(
        "hk".to_string(),
        "hooks/hk.sh".to_string(),
        "## Fisher-Standalone: {}",
    )
    .unwrap();
    assert_eq!(hook.providers.len(), 1);
    assert_eq!(hook.providers[0].0.as_str(), "Standalone");

    match load_hook(
        "hk".to_string(),
        "hooks/hk.sh".to_string(),
        "## Fisher-Nope: {}",
    ) {
        Err(FisherError::ProviderNotFound(name)) => assert_eq!(name, "Nope"),
        _ => panic!("expected an unknown-provider error"),
    }

    match load_hook(
        "hk".to_string(),
        "hooks/hk.sh".to_string(),
        r#"## Fisher-GitHub: {"events": ["nope"]}"#,
    ) {
        Err(FisherError::ProviderGitHubInvalidEventName(name)) => assert_eq!(name, "nope"),
        _ => panic!("expected a bad-event error"),
    }

    match load_hook(
        "hk".to_string(),
        "hooks/hk.sh".to_string(),
        "## Fisher-Standalone: not json",
    ) {
        Err(FisherError::InvalidConfig) => {},
        _ => panic!("expected a configuration error"),
    }
}

#[test]
fn equivalent_configs_validate_alike() {
    let a = fisher::providers::github::GitHubProvider::new(r#"{"secret":"s","events":["push"]}"#)
        .unwrap();
    let b = fisher::providers::github::GitHubProvider::new(
        r#"{ "events" : [ "push" ] , "secret" : "s", "extra": 1 }"#,
    )
    .unwrap();

    for event in &["push", "fork", "ping"] {
        let mk = || {
            let mut req = github_ping_request(sign("s", "{}"), event);
            req.body = "{}".to_string();
            Request::Web(req)
        };
        assert_eq!(a.validate(&mk()), b.validate(&mk()), "{}", event);
    }

    // The whitelist rejects what it does not name.
    let req = Request::Web(github_ping_request(sign("s", "{}"), "fork"));
    assert_eq!(a.validate(&req), RequestType::Invalid);
    let req = Request::Web(github_ping_request(sign("s", "{}"), "push"));
    assert_eq!(a.validate(&req), RequestType::ExecuteHook);
}

#[test]
fn query_parameters_are_form_decoded() {
    let params = params_from_query("a=b%20c&x=1&a=last");
    assert_eq!(params.get("a").unwrap().as_str(), "last");
    assert_eq!(params.get("x").unwrap().as_str(), "1");
    assert!(params.get("b").is_none());

    let (path, query) = split_query("/hook/hk?env=test&ip=127.0.0.1");
    assert_eq!(path, "/hook/hk");
    assert_eq!(query, "env=test&ip=127.0.0.1");

    let (path, query) = split_query("/health");
    assert_eq!(path, "/health");
    assert_eq!(query, "");
}

#[test]
fn hex_decoding_matches_bytes() {
    assert_eq!(from_hex("deadBEEF").unwrap(), vec![0xde, 0xad, 0xbe, 0xef]);
    assert_eq!(from_hex("").unwrap(), Vec::<u8>::new());
    assert!(from_hex("abc").is_none());
    assert!(from_hex("zz").is_none());
}

#[test]
fn forwarded_for_picks_source_behind_proxies() {
    assert_eq!(
        source_address("9.9.9.9", Some("1.1.1.1, 2.2.2.2, 3.3.3.3"), Some(2)),
        "1.1.1.1"
    );
    assert_eq!(source_address("9.9.9.9", Some("2.2.2.2, 3.3.3.3"), Some(2)), "9.9.9.9");
    assert_eq!(source_address("9.9.9.9", Some(" 1.1.1.1 ,2.2.2.2"), Some(1)), "1.1.1.1");
    assert_eq!(source_address("9.9.9.9", Some("1.1.1.1"), None), "9.9.9.9");
    assert_eq!(source_address("9.9.9.9", None, Some(1)), "9.9.9.9");
    assert_eq!(source_address("9.9.9.9", Some("1.1.1.1,2.2.2.2"), Some(0)), "9.9.9.9");
}

#[test]
fn gitlab_bad_event_names_the_culprit() {
    match load_hook(
        "hk".to_string(),
        "hooks/hk.sh".to_string(),
        r#"## Fisher-GitLab: {"events": ["Push", "Nope"]}"#,
    ) {
        Err(FisherError::ProviderGitLabInvalidEventName(name)) => assert_eq!(name, "Nope"),
        _ => panic!("expected a bad-event error"),
    }
}

#[test]
fn github_push_payload_of_wrong_shape_fails_build_env() {
    let provider =
        fisher::providers::github::GitHubProvider::new(r#"{"events": ["push"]}"#).unwrap();
    let mut req = dummy_web_request();
    req.headers.insert("X-GitHub-Event".to_string(), "push".to_string());
    req.headers.insert("X-GitHub-Delivery".to_string(), "abc".to_string());
    req.body = r#"{"ref": "refs/heads/master"}"#.to_string();

    let mut b = EnvBuilder::new();
    match provider.build_env(&Request::Web(req), &mut b) {
        Err(FisherError::InvalidConfig) => {},
        _ => panic!("a push payload without head_commit.id must fail"),
    }
    // The common variables were still set before the failure.
    assert_eq!(b.env().get("EVENT").unwrap().as_str(), "push");
    assert_eq!(b.env().get("DELIVERY_ID").unwrap().as_str(), "abc");
}

#[test]
fn malformed_job_is_refused_not_run() {
    let hook = load_hook("hk".to_string(), "hooks/hk.sh".to_string(), "#!/bin/sh").unwrap();
    let job = Job::new(hook, Request::Web(dummy_web_request()), Some(7));
    let mut b = EnvBuilder::new();
    match job_build_env(&job, &mut b) {
        Err(FisherError::IoError(_)) => {},
        _ => panic!("a job naming no provider must be refused"),
    }
}
