use fisher::providers::testing::TestingProvider;
use fisher::env_builder::EnvBuilder;
use fisher::requests::{dummy_web_request, Request, RequestType};

#[test]
fn testing_test_new() {
    assert!(TestingProvider::new("").is_ok());
    assert!(TestingProvider::new("SOMETHING").is_ok());
    assert!(TestingProvider::new("FAIL").is_err());
}

#[test]
fn test_validate() {
    let p = TestingProvider::new("").unwrap();

    // Without any secret
    assert_eq!(
        p.validate(&Request::Web(dummy_web_request())),
        RequestType::ExecuteHook
    );

    // With the wrong secret
    let mut req = dummy_web_request();
    req.params.insert("secret".to_string(), "wrong!!!".to_string());
    assert_eq!(p.validate(&Request::Web(req)), RequestType::Invalid);

    // With the correct secret
    let mut req = dummy_web_request();
    req.params.insert("secret".to_string(), "testing".to_string());
    assert_eq!(p.validate(&Request::Web(req)), RequestType::ExecuteHook);

    // With the wrong IP address
    let mut req = dummy_web_request();
    req.params.insert("ip".to_string(), "127.1.1.1".to_string());
    req.source = "127.2.2.2".to_string();
    assert_eq!(p.validate(&Request::Web(req)), RequestType::Invalid);

    // With the right IP address
    let mut req = dummy_web_request();
    req.params.insert("ip".to_string(), "127.1.1.1".to_string());
    req.source = "127.1.1.1".to_string();
    assert_eq!(p.validate(&Request::Web(req)), RequestType::ExecuteHook);

    // With the request_type param but with no meaningful value
    let mut req = dummy_web_request();
    req.params.insert("request_type".to_string(), "something".to_string());
    assert_eq!(p.validate(&Request::Web(req)), RequestType::ExecuteHook);

    // With the request_type param and the "ping" value
    let mut req = dummy_web_request();
    req.params.insert("request_type".to_string(), "ping".to_string());
    assert_eq!(p.validate(&Request::Web(req)), RequestType::Ping);
}

#[test]
fn testing_test_build_env() {
    let p = TestingProvider::new("").unwrap();

    // Without the env param
    let mut b = EnvBuilder::new();
    p.build_env(&Request::Web(dummy_web_request()), &mut b).unwrap();

    assert_eq!(b.env().get("PREPARED").unwrap().as_str(), "prepared");
    assert_eq!(b.env().pairs().len(), 1);
    assert_eq!(
        b.files().get("prepared").unwrap().as_slice(),
        "prepared\n".as_bytes()
    );
    assert_eq!(b.files().pairs().len(), 1);

    // With the env param
    let mut req = dummy_web_request();
    req.params.insert("env".to_string(), "test".to_string());

    let mut b = EnvBuilder::new();
    p.build_env(&Request::Web(req), &mut b).unwrap();

    assert_eq!(b.env().get("PREPARED").unwrap().as_str(), "prepared");
    assert_eq!(b.env().get("ENV").unwrap().as_str(), "test");
    assert_eq!(b.env().pairs().len(), 2);
    assert_eq!(
        b.files().get("prepared").unwrap().as_slice(),
        "prepared\n".as_bytes()
    );
    assert_eq!(b.files().pairs().len(), 1);
}

#[test]
fn test_trigger_status_hooks() {
    let p = TestingProvider::new("").unwrap();

    assert!(p.trigger_status_hooks(&Request::Web(dummy_web_request())));

    let mut req = dummy_web_request();
    req.params.insert("ignore_status_hooks".to_string(), "yes".to_string());

    assert!(!p.trigger_status_hooks(&Request::Web(req)));
}
