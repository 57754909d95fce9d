use fisher::processor::HealthDetails;
use fisher::web::JsonResponse;

#[test]
fn test_not_found() {
    let response = JsonResponse::NotFound.to_json();
    assert_eq!(response, "{\"status\":\"not_found\"}");
}

#[test]
fn test_forbidden() {
    let response = JsonResponse::Forbidden.to_json();
    assert_eq!(response, "{\"status\":\"forbidden\"}");
}

#[test]
fn test_ok() {
    let response = JsonResponse::Okay.to_json();
    assert_eq!(response, "{\"status\":\"ok\"}");
}

#[test]
fn test_health_status() {
    let response =
        JsonResponse::HealthStatus(HealthDetails { active_jobs: 1, queue_size: 2 }).to_json();
    assert_eq!(
        response,
        "{\"status\":\"ok\",\"result\":{\"active_jobs\":1,\"queue_size\":2}}"
    );
}

#[test]
fn test_health_status_large_numbers() {
    let response =
        JsonResponse::HealthStatus(HealthDetails { active_jobs: 65535, queue_size: 1200 })
            .to_json();
    assert_eq!(
        response,
        "{\"status\":\"ok\",\"result\":{\"active_jobs\":65535,\"queue_size\":1200}}"
    );
}
