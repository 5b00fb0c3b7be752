use std::time::Duration;

use reqwest::header::{HeaderMap, HeaderValue};

use tars_anthropic::adapter::{
    checked_address, classify_status, failure_message_of, AnthropicAdapter, HttpProviderExtras,
    ResolvedAuth, DEFAULT_API_VERSION, DEFAULT_BASE_URL,
};
use tars_anthropic::error::ProviderError;
use tars_anthropic::json::Json;

fn adapter() -> AnthropicAdapter {
    AnthropicAdapter {
        base_url: DEFAULT_BASE_URL.to_string(),
        api_version: DEFAULT_API_VERSION.to_string(),
        extras: HttpProviderExtras::default(),
    }
}

#[test]
fn classify_401_is_auth() {
    let a = adapter();
    let err = a.classify_error(401, &HeaderMap::new(), r#"{"error":{"message":"invalid"}}"#);
    assert!(matches!(err, ProviderError::Auth(_)));
    assert_eq!(err, ProviderError::Auth("invalid".to_string()));
}

#[test]
fn classify_429_with_retry_after_ms_populates_field() {
    let a = adapter();
    let mut headers = HeaderMap::new();
    headers.insert("retry-after-ms", "1500".parse().unwrap());
    let err = a.classify_error(429, &headers, "");
    match err {
        ProviderError::RateLimited { retry_after } => {
            assert_eq!(retry_after, Some(Duration::from_millis(1500)));
        }
        other => panic!("expected RateLimited, got {other:?}"),
    }
}

#[test]
fn retry_after_in_seconds_is_read_too() {
    let mut headers = HeaderMap::new();
    headers.insert("retry-after", "7".parse().unwrap());
    assert_eq!(
        adapter().classify_error(429, &headers, ""),
        ProviderError::RateLimited { retry_after: Some(Duration::from_secs(7)) }
    );
    headers.insert("retry-after-ms", "20".parse().unwrap());
    assert_eq!(
        adapter().classify_error(429, &headers, ""),
        ProviderError::RateLimited { retry_after: Some(Duration::from_millis(20)) }
    );
}

#[test]
fn retry_after_that_is_no_number_is_left_out() {
    let mut headers = HeaderMap::new();
    headers.insert("retry-after-ms", "soon".parse().unwrap());
    assert_eq!(
        adapter().classify_error(429, &headers, ""),
        ProviderError::RateLimited { retry_after: None }
    );
    headers.insert("retry-after-ms", HeaderValue::from_bytes(b"1\xff").unwrap());
    assert_eq!(
        adapter().classify_error(429, &headers, ""),
        ProviderError::RateLimited { retry_after: None }
    );
}

#[test]
fn classify_covers_every_status() {
    let a = adapter();
    let none = HeaderMap::new();
    let body = r#"{"error":{"message":"why"}}"#;
    let why = || "why".to_string();
    assert_eq!(a.classify_error(403, &none, body), ProviderError::Auth(why()));
    assert_eq!(a.classify_error(503, &none, body), ProviderError::ModelOverloaded);
    assert_eq!(a.classify_error(504, &none, body), ProviderError::ModelOverloaded);
    assert_eq!(a.classify_error(400, &none, body), ProviderError::InvalidRequest(why()));
    assert_eq!(
        a.classify_error(500, &none, body),
        ProviderError::Internal("status 500 Internal Server Error: why".to_string())
    );
    assert_eq!(
        a.classify_error(404, &none, body),
        ProviderError::InvalidRequest("status 404 Not Found: why".to_string())
    );
    assert_eq!(
        a.classify_error(599, &none, body),
        ProviderError::Internal("status 599 <unknown status code>: why".to_string())
    );
    assert_eq!(
        a.classify_error(600, &none, body),
        ProviderError::InvalidRequest("status 600 <unknown status code>: why".to_string())
    );
}

#[test]
fn bad_request_about_size_is_context_too_long() {
    let a = adapter();
    let none = HeaderMap::new();
    let too_long = ProviderError::ContextTooLong { limit: 0, requested: 0 };
    assert_eq!(a.classify_error(400, &none, "MAX_TOKENS is too large"), too_long);
    assert_eq!(a.classify_error(400, &none, "beyond the Context window"), too_long);
    assert_eq!(
        a.classify_error(400, &none, "max tokens"),
        ProviderError::InvalidRequest("max tokens".to_string())
    );
}

#[test]
fn classification_takes_what_was_found_out() {
    assert_eq!(
        classify_status(400, None, "M".to_string(), "contexts", "400 Bad Request"),
        ProviderError::ContextTooLong { limit: 0, requested: 0 }
    );
    assert_eq!(
        classify_status(418, None, "M".to_string(), "m", "418 I'm a teapot"),
        ProviderError::InvalidRequest("status 418 I'm a teapot: M".to_string())
    );
}

#[test]
fn failure_message_falls_back_to_the_body() {
    let parsed = Json::parse(r#"{"error":{"message":"inner"}}"#);
    assert_eq!(failure_message_of(&parsed, "outer"), "inner");
    assert_eq!(failure_message_of(&Json::parse("{}"), "{}"), "{}");
    let long = "x".repeat(301);
    let cut = failure_message_of(&Json::parse(&long), &long);
    assert_eq!(cut, format!("{}…", "x".repeat(300)));
}

#[test]
fn build_headers_requires_api_key() {
    let a = adapter();
    let err = a.build_headers(&ResolvedAuth::NoAuth).unwrap_err();
    assert!(matches!(err, ProviderError::Auth(_)));

    let h = a.build_headers(&ResolvedAuth::ApiKey("sk-ant-x".to_string())).unwrap();
    assert_eq!(h.get("x-api-key").unwrap(), "sk-ant-x");
    assert_eq!(h.get("anthropic-version").unwrap(), DEFAULT_API_VERSION);
}

#[test]
fn headers_are_three() {
    let a = adapter();
    let by_key = a.build_headers(&ResolvedAuth::ApiKey("k".to_string())).unwrap();
    let by_token = a.build_headers(&ResolvedAuth::Bearer("k".to_string())).unwrap();
    assert_eq!(by_key, by_token);
    assert_eq!(by_key.len(), 3);
    assert_eq!(by_key.get("content-type").unwrap(), "application/json");
    assert_eq!(
        a.build_headers(&ResolvedAuth::NoAuth).unwrap_err(),
        ProviderError::Auth("Anthropic requires an x-api-key; got Auth::None".to_string())
    );
}

#[test]
fn header_values_are_checked() {
    let mut a = adapter();
    assert_eq!(
        a.build_headers(&ResolvedAuth::ApiKey("a\nb".to_string())).unwrap_err(),
        ProviderError::Auth("malformed x-api-key value: failed to parse header value".to_string())
    );
    a.build_headers(&ResolvedAuth::ApiKey("tab\tand é".to_string())).unwrap();
    a.api_version = "20\r23".to_string();
    assert_eq!(
        a.build_headers(&ResolvedAuth::NoAuth).unwrap_err(),
        ProviderError::Internal("bad version header: failed to parse header value".to_string())
    );
}

#[test]
fn urls_are_built_from_the_base() {
    let mut a = adapter();
    assert_eq!(a.build_url("any").unwrap(), "https://api.anthropic.com/v1/messages");
    assert_eq!(a.batch_url("").unwrap(), "https://api.anthropic.com/v1/messages/batches");
    assert_eq!(a.batch_url("/a b").unwrap(), "https://api.anthropic.com/v1/messages/batches/a%20b");
    a.base_url = "http://localhost:8080///".to_string();
    assert_eq!(a.messages_address(), "http://localhost:8080/v1/messages");
    assert_eq!(a.batch_address("/x"), "http://localhost:8080/v1/messages/batches/x");
    assert_eq!(a.build_url("any").unwrap(), "http://localhost:8080/v1/messages");
}

#[test]
fn bad_urls_are_internal_errors() {
    let mut a = adapter();
    a.base_url = "nowhere".to_string();
    assert_eq!(
        a.build_url("any").unwrap_err(),
        ProviderError::Internal(
            "bad anthropic base_url: relative URL without a base".to_string()
        )
    );
    assert_eq!(
        a.batch_url("/x").unwrap_err(),
        ProviderError::Internal(
            "bad anthropic batch url: relative URL without a base".to_string()
        )
    );
    assert_eq!(
        checked_address(Err("e".to_string()), "c: ").unwrap_err(),
        ProviderError::Internal("c: e".to_string())
    );
    assert_eq!(checked_address(Ok("u".to_string()), "c: ").unwrap(), "u");
}

#[test]
fn extras_are_kept() {
    let mut a = adapter();
    assert!(a.extras().headers.is_empty());
    a.extras.headers.push(("x-team".to_string(), "blue".to_string()));
    assert_eq!(a.extras().headers[0].1, "blue");
}
