use shikicrate::endpoint::{check_base_url, validate_base_url, UrlParts};
use shikicrate::ShikicrateError;

fn refusal(url: &str) -> Option<String> {
    match validate_base_url(url) {
        Ok(()) => None,
        Err(ShikicrateError::Validation(message)) => Some(message),
        Err(other) => panic!("unexpected failure: {:?}", other),
    }
}

#[test]
fn base_url_rejects_file_scheme() {
    assert_eq!(
        refusal("file:///etc/passwd"),
        Some("Unsafe URL scheme: file. Only http:// and https:// are allowed".to_string())
    );
}

#[test]
fn base_url_rejects_missing_host() {
    assert_eq!(refusal("http://"), Some("Invalid URL: empty host".to_string()));
}

#[test]
fn base_url_accepts_https() {
    assert_eq!(refusal("https://example.com/graphql"), None);
}

#[test]
fn base_url_accepts_http() {
    assert_eq!(refusal("http://example.com/graphql"), None);
    assert_eq!(refusal("http://127.0.0.1:8080/"), None);
}

#[test]
fn base_url_rejects_other_schemes() {
    assert_eq!(
        refusal("ftp://example.com"),
        Some("Unsafe URL scheme: ftp. Only http:// and https:// are allowed".to_string())
    );
    assert_eq!(
        refusal("data:text/plain,hello"),
        Some("Unsafe URL scheme: data. Only http:// and https:// are allowed".to_string())
    );
    assert_eq!(
        refusal("javascript:alert(1)"),
        Some("Unsafe URL scheme: javascript. Only http:// and https:// are allowed".to_string())
    );
}

#[test]
fn base_url_scheme_is_compared_in_lower_case() {
    assert_eq!(refusal("HTTPS://example.com/graphql"), None);
    assert_eq!(
        refusal("FILE:///etc/passwd"),
        Some("Unsafe URL scheme: file. Only http:// and https:// are allowed".to_string())
    );
}

#[test]
fn base_url_rejects_what_does_not_parse() {
    assert_eq!(refusal("not a url"), Some("Invalid URL: relative URL without a base".to_string()));
    assert_eq!(refusal(""), Some("Invalid URL: relative URL without a base".to_string()));
    assert_eq!(
        refusal("https://example.com:99999/"),
        Some("Invalid URL: invalid port number".to_string())
    );
}

#[test]
fn rule_on_parsed_parts() {
    let parts = |scheme: &str, has_host: bool| Ok(UrlParts { scheme: scheme.to_string(), has_host });
    assert!(check_base_url(&parts("http", true)).is_ok());
    assert!(check_base_url(&parts("https", true)).is_ok());
    match check_base_url(&parts("https", false)) {
        Err(ShikicrateError::Validation(message)) => assert_eq!(message, "URL must have a host"),
        _ => panic!("a URL without a host must be refused"),
    }
    match check_base_url(&parts("gopher", false)) {
        Err(ShikicrateError::Validation(message)) => assert_eq!(
            message,
            "Unsafe URL scheme: gopher. Only http:// and https:// are allowed"
        ),
        _ => panic!("the scheme is looked at before the host"),
    }
    match check_base_url(&parts("httpx", true)) {
        Err(ShikicrateError::Validation(message)) => assert_eq!(
            message,
            "Unsafe URL scheme: httpx. Only http:// and https:// are allowed"
        ),
        _ => panic!("a scheme that only starts with http must be refused"),
    }
}

#[test]
fn rule_on_parse_error() {
    let error = url::Url::parse("http://").unwrap_err();
    match check_base_url(&Err(error)) {
        Err(ShikicrateError::Validation(message)) => {
            assert_eq!(message, "Invalid URL: empty host")
        }
        _ => panic!("a parse error must be refused"),
    }
}
