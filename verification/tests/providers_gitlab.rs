use fisher::providers::gitlab::{normalize_event_name, GitLabProvider};
use fisher::env_builder::EnvBuilder;
use fisher::requests::{dummy_web_request, Request, RequestType, WebRequest};

const GITLAB_EVENTS: &[&str] = &[
    "Push",
    "Tag Push",
    "Issue",
    "Note",
    "Merge Request",
    "Wiki Page",
    "Build",
    "Pipeline",
    "Confidential Issue",
];

fn base_request() -> WebRequest {
    let mut base = dummy_web_request();
    base.headers.insert("X-Gitlab-Event".to_string(), "Push Hook".to_string());
    base.body = r#"{"a": "b"}"#.to_string();
    base
}

#[test]
fn gitlab_test_new() {
    for right in &[
        r#"{}"#,
        r#"{"secret": "abcde"}"#,
        r#"{"events": ["Push", "Issue"]}"#,
        r#"{"secret": "abcde", "events": ["Push", "Issue"]}"#,
    ] {
        assert!(GitLabProvider::new(right).is_ok(), "{}", right);
    }

    for wrong in &[
        r#"{"secret": 12345}"#,
        r#"{"secret": true}"#,
        r#"{"events": 12345}"#,
        r#"{"events": true}"#,
        r#"{"events": {}}"#,
        r#"{"events": [12345]}"#,
        r#"{"events": [true]}"#,
        r#"{"events": ["invalid_event"]}"#,
    ] {
        assert!(GitLabProvider::new(wrong).is_err(), "{}", wrong);
    }
}

#[test]
fn test_validate_request_type() {
    let provider = GitLabProvider::new("{}").unwrap();

    for event in GITLAB_EVENTS.iter() {
        let mut request = base_request();
        request
            .headers
            .insert("X-Gitlab-Event".to_string(), format!("{} Hook", event));

        assert_eq!(provider.validate(&Request::Web(request)), RequestType::ExecuteHook);
    }
}

#[test]
fn test_validate_basic() {
    let provider = GitLabProvider::new("{}").unwrap();

    assert_eq!(
        provider.validate(&Request::Web(dummy_web_request())),
        RequestType::Invalid
    );

    let mut req = dummy_web_request();
    req.headers.insert("X-Gitlab-Event".to_string(), "Push Hook".to_string());
    assert_eq!(provider.validate(&Request::Web(req)), RequestType::Invalid);

    let mut req = dummy_web_request();
    req.body = r#"{"a": "b"}"#.to_string();
    assert_eq!(provider.validate(&Request::Web(req)), RequestType::Invalid);

    let mut req = dummy_web_request();
    req.headers.insert("X-Gitlab-Event".to_string(), "Push Hook".to_string());
    req.body = r#"{"a": "b"}"#.to_string();
    assert_eq!(provider.validate(&Request::Web(req)), RequestType::ExecuteHook);
}

#[test]
fn test_validate_secret() {
    let provider = GitLabProvider::new(r#"{"secret": "abcde"}"#).unwrap();

    let no_secret = GitLabProvider::new("{}").unwrap();
    assert_eq!(
        no_secret.validate(&Request::Web(base_request())),
        RequestType::ExecuteHook
    );

    assert_eq!(
        provider.validate(&Request::Web(base_request())),
        RequestType::Invalid
    );

    let mut req = base_request();
    req.headers.insert("X-Gitlab-Token".to_string(), "12345".to_string());
    assert_eq!(provider.validate(&Request::Web(req)), RequestType::Invalid);

    let mut req = base_request();
    req.headers.insert("X-Gitlab-Token".to_string(), "abcde".to_string());
    assert_eq!(provider.validate(&Request::Web(req)), RequestType::ExecuteHook);
}

fn with_event(name: &str) -> Request {
    let mut base = base_request();
    base.body = "{}".to_string();
    base.headers.insert("X-Gitlab-Event".to_string(), name.to_string());
    Request::Web(base)
}

#[test]
fn test_validate_events() {
    let config = r#"{"events": ["Push", "Issue"]}"#;
    let provider = GitLabProvider::new(config).unwrap();

    assert_eq!(provider.validate(&with_event("Push Hook")), RequestType::ExecuteHook);
    assert_eq!(provider.validate(&with_event("Build Hook")), RequestType::Invalid);

    let provider = GitLabProvider::new("{}").unwrap();
    assert_eq!(provider.validate(&with_event("Push Hook")), RequestType::ExecuteHook);
    assert_eq!(provider.validate(&with_event("Build Hook")), RequestType::ExecuteHook);
    assert_eq!(provider.validate(&with_event("Strange Hook")), RequestType::ExecuteHook);
}

#[test]
fn gitlab_test_build_env() {
    let mut req = base_request();
    req.headers.insert("X-Gitlab-Event".to_string(), "Push Hook".to_string());

    let provider = GitLabProvider::new("{}").unwrap();
    let mut b = EnvBuilder::new();
    provider.build_env(&Request::Web(req), &mut b).unwrap();

    assert_eq!(b.env().get("EVENT").unwrap().as_str(), "Push");
    assert_eq!(b.env().pairs().len(), 1);
    assert_eq!(b.files().pairs().len(), 0);
}

#[test]
fn test_normalize_event_name() {
    assert_eq!(normalize_event_name("Push"), "Push");
    assert_eq!(normalize_event_name("Push Hook"), "Push");
    assert_eq!(normalize_event_name("Push Hook Hook"), "Push Hook");
}
