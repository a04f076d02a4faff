use shikicrate::client::{API_BASE_URL, DEFAULT_TIMEOUT_SECS};
use shikicrate::{HttpFailure, ShikicrateClient, ShikicrateClientBuilder, ShikicrateError};
use std::time::Duration;

#[test]
fn test_is_retryable_http() {
    let client_result = ShikicrateClient::new();
    assert!(client_result.is_ok());
}

#[test]
fn test_is_retryable_rate_limit() {
    let error = ShikicrateError::RateLimit {
        message: "rate limit".to_string(),
        retry_after: Some(60),
    };
    assert!(ShikicrateClient::is_retryable(&error));
}

#[test]
fn test_is_retryable_validation() {
    let error = ShikicrateError::Validation("invalid".to_string());
    assert!(!ShikicrateClient::is_retryable(&error));
}

#[test]
fn test_is_retryable_graphql() {
    let error = ShikicrateError::GraphQL {
        message: "graphql error".to_string(),
        errors: None,
    };
    assert!(!ShikicrateClient::is_retryable(&error));
}

#[test]
fn test_builder_default() {
    let builder = ShikicrateClientBuilder::default();
    let client = builder.build();
    assert!(client.is_ok());
}

#[test]
fn test_builder_timeout() {
    let client = ShikicrateClientBuilder::new()
        .timeout(Duration::from_secs(60))
        .build();
    assert!(client.is_ok());
}

#[test]
fn test_builder_base_url() {
    let client = ShikicrateClientBuilder::new()
        .base_url("https://shikimori.one/api/graphql".to_string())
        .build();
    assert!(client.is_ok());
}

#[test]
fn test_builder_invalid_url_scheme() {
    let client = ShikicrateClientBuilder::new()
        .base_url("file:///etc/passwd".to_string())
        .build();
    assert!(matches!(client, Err(ShikicrateError::Validation(_))));
}

#[test]
fn test_builder_invalid_url_no_host() {
    let client = ShikicrateClientBuilder::new()
        .base_url("http://".to_string())
        .build();
    assert!(matches!(client, Err(ShikicrateError::Validation(_))));
}

#[test]
fn test_builder_invalid_url_parse() {
    let client = ShikicrateClientBuilder::new()
        .base_url("not a url".to_string())
        .build();
    assert!(matches!(client, Err(ShikicrateError::Validation(_))));
}

#[test]
fn test_with_base_url_validation() {
    let client = ShikicrateClient::with_base_url("https://shikimori.one/api/graphql".to_string());
    assert!(client.is_ok());
}

#[test]
fn test_with_base_url_invalid() {
    let client = ShikicrateClient::with_base_url("ftp://example.com".to_string());
    assert!(matches!(client, Err(ShikicrateError::Validation(_))));
}

#[test]
fn test_with_timeout() {
    let client = ShikicrateClient::with_timeout(Duration::from_secs(60));
    assert!(client.is_ok());
}

#[test]
fn new_client_has_the_defaults() {
    let client = ShikicrateClient::new().unwrap();
    assert_eq!(client.base_url(), "https://shikimori.one/api/graphql");
    assert_eq!(client.base_url(), API_BASE_URL);
    assert_eq!(DEFAULT_TIMEOUT_SECS, 30);
    assert_eq!(client.timeout(), Duration::from_secs(30));
}

#[test]
fn default_client_equals_new_client() {
    let client = ShikicrateClient::default();
    assert_eq!(client.base_url(), API_BASE_URL);
    assert_eq!(client.timeout(), Duration::from_secs(30));
}

#[test]
fn with_timeout_keeps_the_timeout() {
    let client = ShikicrateClient::with_timeout(Duration::from_millis(1500)).unwrap();
    assert_eq!(client.timeout(), Duration::from_millis(1500));
    assert_eq!(client.base_url(), API_BASE_URL);
}

#[test]
fn with_base_url_keeps_the_url_as_given() {
    let client = ShikicrateClient::with_base_url("HTTPS://Example.com:8443/graphql".to_string())
        .unwrap();
    assert_eq!(client.base_url(), "HTTPS://Example.com:8443/graphql");
    assert_eq!(client.timeout(), Duration::from_secs(30));
}

#[test]
fn builder_sets_both() {
    let client = ShikicrateClientBuilder::new()
        .base_url("http://localhost:3000/graphql".to_string())
        .timeout(Duration::from_secs(90))
        .build()
        .unwrap();
    assert_eq!(client.base_url(), "http://localhost:3000/graphql");
    assert_eq!(client.timeout(), Duration::from_secs(90));
}

#[test]
fn builder_later_setting_wins() {
    let client = ShikicrateClientBuilder::new()
        .base_url("ftp://example.com".to_string())
        .base_url("https://example.com/graphql".to_string())
        .timeout(Duration::from_secs(1))
        .timeout(Duration::from_secs(2))
        .build()
        .unwrap();
    assert_eq!(client.base_url(), "https://example.com/graphql");
    assert_eq!(client.timeout(), Duration::from_secs(2));
}

#[test]
fn builder_refusal_messages() {
    let scheme = ShikicrateClientBuilder::new()
        .base_url("file:///etc/passwd".to_string())
        .build();
    match scheme {
        Err(ShikicrateError::Validation(message)) => assert_eq!(
            message,
            "Unsafe URL scheme: file. Only http:// and https:// are allowed"
        ),
        _ => panic!("a file URL must be refused"),
    }
    let host = ShikicrateClientBuilder::new().base_url("http://".to_string()).build();
    match host {
        Err(ShikicrateError::Validation(message)) => {
            assert_eq!(message, "Invalid URL: empty host")
        }
        _ => panic!("a URL without a host must be refused"),
    }
    let parse = ShikicrateClientBuilder::new().base_url("not a url".to_string()).build();
    match parse {
        Err(ShikicrateError::Validation(message)) => {
            assert_eq!(message, "Invalid URL: relative URL without a base")
        }
        _ => panic!("a text that is no URL must be refused"),
    }
}

#[test]
fn http_failures_retry_only_when_transient() {
    let failure = |timeout: bool, connect: bool, request: bool| {
        ShikicrateError::Http(HttpFailure {
            timeout,
            connect,
            request,
            message: "failed".to_string(),
        })
    };
    assert!(ShikicrateClient::is_retryable(&failure(true, false, false)));
    assert!(ShikicrateClient::is_retryable(&failure(false, true, false)));
    assert!(ShikicrateClient::is_retryable(&failure(false, false, true)));
    assert!(ShikicrateClient::is_retryable(&failure(true, true, true)));
    assert!(!ShikicrateClient::is_retryable(&failure(false, false, false)));
}

#[test]
fn other_failures_never_retry() {
    let api = ShikicrateError::Api { status: 500, message: "down".to_string() };
    assert!(!ShikicrateClient::is_retryable(&api));
    let decode = ShikicrateError::Serialization("bad".to_string());
    assert!(!ShikicrateClient::is_retryable(&decode));
    let throttled = ShikicrateError::RateLimit { message: String::new(), retry_after: None };
    assert!(ShikicrateClient::is_retryable(&throttled));
}

#[test]
fn cloned_client_is_the_same() {
    let client = ShikicrateClientBuilder::new()
        .base_url("https://example.com/graphql".to_string())
        .timeout(Duration::from_secs(7))
        .build()
        .unwrap();
    let copy = client.clone();
    assert_eq!(copy.base_url(), client.base_url());
    assert_eq!(copy.timeout(), Duration::from_secs(7));
}
