use session_bridge::catalog::REQUEST_TIMEOUT_SECS;
use std::time::Duration;

#[test]
fn test_reqwest_client_creation() {
    let client_result = reqwest::Client::builder()
        .timeout(Duration::from_secs(REQUEST_TIMEOUT_SECS))
        .build();

    assert!(client_result.is_ok());
    assert_eq!(REQUEST_TIMEOUT_SECS, 30);
}
