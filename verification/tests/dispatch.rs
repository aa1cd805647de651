use mmrs::classify_send_outcome;
use mmrs::MMBody;
use mmrs::MMRSError;

#[test]
fn completed_exchange_returns_status_unchanged() {
    assert_eq!(classify_send_outcome(Ok(200)), Ok(200));
}

#[test]
fn non_success_status_is_not_an_error() {
    assert_eq!(classify_send_outcome(Ok(404)), Ok(404));
    assert_eq!(classify_send_outcome(Ok(500)), Ok(500));
}

#[test]
fn transport_fault_is_classified() {
    let r = classify_send_outcome(Err("connection refused".to_string()));
    assert_eq!(
        r,
        Err(MMRSError::HTTPRequestError("connection refused".to_string()))
    );
}

#[test]
fn serialize_then_classify_pipeline() {
    let mut x: MMBody = MMBody::new();
    x.text = Some("Hello, world!".to_string());
    let body = x.to_json().unwrap();
    assert_eq!(body, "{\"text\":\"Hello, world!\"}");
    assert_eq!(classify_send_outcome(Ok(200)), Ok(200));
}

#[test]
fn error_messages_render() {
    let bad = MMRSError::BadJSONData("eof".to_string());
    assert_eq!(bad.message(), "Error writing to JSON string: eof");
    let transport = MMRSError::HTTPRequestError("timed out".to_string());
    assert_eq!(transport.message(), "Error while sending HTTP POST: timed out");
}
