use atlas_rs::services::healthcheck::health_body;

#[test]
fn test_healthcheck_endpoint() {
    let body = health_body();
    assert_eq!(body, "Ok");
    assert!(!body.is_empty());
}
