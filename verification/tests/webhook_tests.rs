use job_scheduler::error::ErrorStatus;
use job_scheduler::webhook::{
    plan_webhook, transport_error, transport_failure, webhook_decode_error, webhook_request,
    webhook_status_error, TransportFailure, WebhookMethod,
};

fn json(text: &str) -> serde_json::Value {
    serde_json::from_str(text).unwrap()
}

#[test]
fn plan_defaults_to_post() {
    let (url, method) = plan_webhook(Some("http://x".to_string()), None).unwrap();
    assert_eq!(url, "http://x");
    assert_eq!(method, WebhookMethod::Post);
}

#[test]
fn plan_methods() {
    let u = || Some("http://x".to_string());
    assert_eq!(plan_webhook(u(), Some("POST".to_string())).unwrap().1, WebhookMethod::Post);
    assert_eq!(plan_webhook(u(), Some("PUT".to_string())).unwrap().1, WebhookMethod::Put);
    assert_eq!(plan_webhook(u(), Some("PATCH".to_string())).unwrap().1, WebhookMethod::Patch);
    let e = plan_webhook(u(), Some("GET".to_string())).unwrap_err();
    assert_eq!(e.status, ErrorStatus::Permanent);
    assert_eq!(e.message, "Invalid method");
    let e = plan_webhook(u(), Some("post".to_string())).unwrap_err();
    assert_eq!(e.message, "Invalid method");
}

#[test]
fn plan_without_url() {
    let e = plan_webhook(None, Some("GET".to_string())).unwrap_err();
    assert_eq!(e.status, ErrorStatus::Permanent);
    assert_eq!(e.message, "Invalid url");
}

#[test]
fn request_from_payload() {
    let p = json("{\"url\": \"http://hook\", \"method\": \"PUT\", \"body\": {\"a\": 1}}");
    let r = webhook_request(&p).unwrap();
    assert_eq!(r.url, "http://hook");
    assert_eq!(r.method, WebhookMethod::Put);
    assert_eq!(r.body, json("{\"a\": 1}"));
}

#[test]
fn request_from_payload_defaults() {
    let p = json("{\"url\": \"http://hook\"}");
    let r = webhook_request(&p).unwrap();
    assert_eq!(r.method, WebhookMethod::Post);
    assert_eq!(r.body, serde_json::Value::Null);
}

#[test]
fn request_from_bad_payloads() {
    assert_eq!(webhook_request(&json("{\"url\": 5}")).unwrap_err().message, "Invalid url");
    assert_eq!(webhook_request(&json("[1, 2]")).unwrap_err().message, "Invalid url");
    let e = webhook_request(&json("{\"url\": \"u\", \"method\": \"DELETE\"}")).unwrap_err();
    assert_eq!(e.message, "Invalid method");
    assert!(e.is_permanent());
}

#[test]
fn status_classes() {
    assert!(webhook_status_error(200).is_none());
    assert!(webhook_status_error(204).is_none());
    assert!(webhook_status_error(299).is_none());
    let e = webhook_status_error(429).unwrap();
    assert_eq!(e.status, ErrorStatus::Temporary);
    assert_eq!(e.message, "Got a temporary failure status: 429");
    let e = webhook_status_error(503).unwrap();
    assert_eq!(e.status, ErrorStatus::Temporary);
    assert_eq!(e.message, "Got a temporary failure status: 503");
    let e = webhook_status_error(404).unwrap();
    assert_eq!(e.status, ErrorStatus::Permanent);
    assert_eq!(e.message, "Got a permanent failure status: 404");
    let e = webhook_status_error(302).unwrap();
    assert_eq!(e.message, "Got a permanent failure status: 302");
    let e = webhook_status_error(600).unwrap();
    assert_eq!(e.status, ErrorStatus::Permanent);
}

#[test]
fn transport_failures() {
    assert_eq!(transport_failure(true, true, true, true), TransportFailure::Connect);
    assert_eq!(transport_failure(false, true, true, false), TransportFailure::Timeout);
    assert_eq!(transport_failure(false, false, true, true), TransportFailure::Decode);
    assert_eq!(transport_failure(false, false, false, true), TransportFailure::Redirect);
    assert_eq!(transport_failure(false, false, false, false), TransportFailure::Other);
}

#[test]
fn transport_errors() {
    let src = || anyhow::Error::msg("io");
    let e = transport_error(TransportFailure::Connect, src());
    assert_eq!((e.status, e.message.as_str()), (ErrorStatus::Temporary, "Connection error"));
    let e = transport_error(TransportFailure::Timeout, src());
    assert_eq!((e.status, e.message.as_str()), (ErrorStatus::Temporary, "Request got timed out"));
    let e = transport_error(TransportFailure::Decode, src());
    assert_eq!(
        (e.status, e.message.as_str()),
        (ErrorStatus::Permanent, "Failed to deserialize webhook response")
    );
    let e = transport_error(TransportFailure::Redirect, src());
    assert_eq!(
        (e.status, e.message.as_str()),
        (ErrorStatus::Permanent, "Redirected so misconfigured url")
    );
    let e = transport_error(TransportFailure::Other, src());
    assert_eq!((e.status, e.message.as_str()), (ErrorStatus::Temporary, "Unknown error"));
    assert!(e.source.is_some());
}

#[test]
fn decode_error_is_permanent() {
    let e = webhook_decode_error(anyhow::Error::msg("bad json"));
    assert!(e.is_permanent());
    assert_eq!(e.message, "Failed to deserialize webhook response");
    assert!(e.source.is_some());
}
