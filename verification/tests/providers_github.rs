use fisher::providers::github::{verify_signature, GitHubProvider};
use fisher::env_builder::EnvBuilder;
use fisher::requests::{dummy_web_request, Request, RequestType, WebRequest};

const GITHUB_EVENTS: &[&str] = &[
    "commit_comment",
    "create",
    "delete",
    "deployment",
    "deployment_status",
    "fork",
    "gollum",
    "issue_comment",
    "issues",
    "label",
    "member",
    "membership",
    "milestone",
    "organization",
    "page_build",
    "project_card",
    "project_column",
    "project",
    "public",
    "pull_reques_review_comment",
    "pull_request_review",
    "pull_request",
    "push",
    "repository",
    "release",
    "status",
    "team",
    "team_add",
    "watch",
];

#[test]
fn github_test_new() {
    for right in &[
        r#"{}"#,
        r#"{"secret": "abcde"}"#,
        r#"{"events": ["push", "fork"]}"#,
        r#"{"secret": "abcde", "events": ["push", "fork"]}"#,
    ] {
        assert!(GitHubProvider::new(right).is_ok(), "{}", right);
    }

    for wrong in &[
        r#"{"secret": 12345}"#,
        r#"{"secret": true}"#,
        r#"{"events": 12345}"#,
        r#"{"events": true}"#,
        r#"{"events": {}}"#,
        r#"{"events": [12345]}"#,
        r#"{"events": [true]}"#,
        r#"{"events": ["invalid_event"]}"#,
    ] {
        assert!(GitHubProvider::new(wrong).is_err(), "{}", wrong);
    }
}

fn event_request(event: &str) -> WebRequest {
    let mut request = dummy_web_request();
    request.headers.insert("X-GitHub-Event".to_string(), event.to_string());
    request.headers.insert("X-GitHub-Delivery".to_string(), "12345".to_string());
    request.headers.insert("X-Hub-Signature".to_string(), "invalid".to_string());
    request.body = "{}".to_string();
    request
}

#[test]
fn test_request_type() {
    let provider = GitHubProvider::new("{}").unwrap();

    let req = Request::Web(event_request("ping"));
    assert_eq!(provider.validate(&req), RequestType::Ping);

    for event in GITHUB_EVENTS.iter() {
        let req = Request::Web(event_request(event));
        assert_eq!(provider.validate(&req), RequestType::ExecuteHook);
    }
}

#[test]
fn github_test_build_env() {
    let mut req = dummy_web_request();
    req.headers.insert("X-GitHub-Event".to_string(), "ping".to_string());
    req.headers.insert("X-GitHub-Delivery".to_string(), "12345".to_string());

    let provider = GitHubProvider::new("{}").unwrap();
    let mut b = EnvBuilder::new();
    provider.build_env(&Request::Web(req), &mut b).unwrap();

    assert_eq!(b.env().get("EVENT").unwrap().as_str(), "ping");
    assert_eq!(b.env().get("DELIVERY_ID").unwrap().as_str(), "12345");
    assert_eq!(b.env().pairs().len(), 2);
    assert_eq!(b.files().pairs().len(), 0);
}

fn dummy_push_event_request(event: &str) -> WebRequest {
    let mut req = dummy_web_request();
    req.headers.insert("X-GitHub-Delivery".to_string(), "12345".to_string());
    req.headers.insert("X-GitHub-Event".to_string(), event.to_string());
    req.body =
        r#"{"head_commit":{"id":"deadbeef"},"ref":"refs/heads/master"}"#.to_string();
    req
}

#[test]
fn test_build_env_event_push_wrong_event() {
    let req = dummy_push_event_request("ping");
    let provider = GitHubProvider::new(r#"{"events": ["create", "push"]}"#).unwrap();

    let mut b = EnvBuilder::new();
    provider.build_env(&Request::Web(req), &mut b).unwrap();

    assert!(b.env().get("PUSH_REF").is_none());
    assert!(b.env().get("PUSH_HEAD").is_none());
}

#[test]
fn test_build_env_event_push_no_whitelist() {
    let req = dummy_push_event_request("push");
    let provider = GitHubProvider::new("{}").unwrap();

    let mut b = EnvBuilder::new();
    provider.build_env(&Request::Web(req), &mut b).unwrap();

    assert!(b.env().get("PUSH_REF").is_none());
    assert!(b.env().get("PUSH_HEAD").is_none());
}

#[test]
fn test_build_env_event_push_correct() {
    let req = dummy_push_event_request("push");
    let provider = GitHubProvider::new(r#"{"events": ["push"]}"#).unwrap();

    let mut b = EnvBuilder::new();
    provider.build_env(&Request::Web(req), &mut b).unwrap();

    assert_eq!(b.env().get("PUSH_REF").unwrap().as_str(), "refs/heads/master");
    assert_eq!(b.env().get("PUSH_HEAD").unwrap().as_str(), "deadbeef");
}

#[test]
fn test_verify_signature() {
    for signature in &[
        "invalid",
        "invalid=invalid",
        "sha1=g",
        "sha1=e75efc0f29bf50c23f99b30b86f7c78fdaf5f11d",
    ] {
        assert!(!verify_signature("secret", "payload", signature), "{}", signature);
    }

    assert!(verify_signature(
        "secret",
        "payload",
        "sha1=f75efc0f29bf50c23f99b30b86f7c78fdaf5f11d"
    ));
}
