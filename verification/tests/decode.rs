use shikicrate::decode::{
    attempt_outcome, classify_status, collect_error_messages, collect_records, decode_body,
    decode_document, decode_response, shaped_page, summarize_errors, HttpResponse,
    TOO_MANY_REQUESTS,
};
use shikicrate::{ErrorKind, HttpFailure, ShikicrateError};

fn response(status: u16, retry_after: Option<&str>, body: &str) -> HttpResponse {
    HttpResponse {
        status,
        retry_after: retry_after.map(|text| text.to_string()),
        body: body.to_string(),
    }
}

fn json(text: &str) -> serde_json::Value {
    serde_json::from_str(text).unwrap()
}

#[test]
fn summary_without_messages() {
    let messages: Vec<String> = Vec::new();
    assert_eq!(summarize_errors(&messages), "Unknown GraphQL error");
}

#[test]
fn summary_of_one_message() {
    assert_eq!(summarize_errors(&vec!["Field not found".to_string()]), "Field not found");
}

#[test]
fn summary_of_several_messages() {
    let two = vec!["first".to_string(), "second".to_string()];
    assert_eq!(summarize_errors(&two), "Multiple GraphQL errors: first; second");
    let three = vec!["a".to_string(), "b".to_string(), "c".to_string()];
    assert_eq!(summarize_errors(&three), "Multiple GraphQL errors: a; b; c");
}

#[test]
fn decoder_joins_two_error_messages() {
    let body = "{\"errors\":[{\"message\":\"first\"},{\"message\":\"second\"}]}";
    match decode_response(&response(200, None, body), "animes") {
        Err(ShikicrateError::GraphQL { message, errors }) => {
            assert_eq!(message, "Multiple GraphQL errors: first; second");
            assert_eq!(
                errors,
                Some(json("[{\"message\":\"first\"},{\"message\":\"second\"}]"))
            );
        }
        other => panic!("expected the service's errors, got {:?}", other),
    }
}

#[test]
fn decoder_single_error_message_stands_alone() {
    let body = "{\"errors\":[{\"message\":\"only\",\"path\":[\"animes\"]}],\"data\":null}";
    match decode_body(body, "animes") {
        Err(ShikicrateError::GraphQL { message, errors }) => {
            assert_eq!(message, "only");
            assert_eq!(errors, Some(json("[{\"message\":\"only\",\"path\":[\"animes\"]}]")));
        }
        other => panic!("expected the service's errors, got {:?}", other),
    }
}

#[test]
fn decoder_skips_entries_without_a_text_message() {
    let errors = json("[{\"message\":1},{\"code\":7},\"bare\",{\"message\":\"kept\"},{\"message\":null}]");
    assert_eq!(collect_error_messages(&errors), vec!["kept".to_string()]);
    let body = "{\"errors\":[{\"message\":1},{\"code\":7},\"bare\",{\"message\":\"kept\"}]}";
    match decode_body(body, "animes") {
        Err(ShikicrateError::GraphQL { message, .. }) => assert_eq!(message, "kept"),
        other => panic!("expected the service's errors, got {:?}", other),
    }
}

#[test]
fn decoder_errors_without_any_message() {
    for body in [
        "{\"errors\":[]}",
        "{\"errors\":null}",
        "{\"errors\":\"broken\"}",
        "{\"errors\":{\"message\":\"not in an array\"}}",
        "{\"errors\":[{\"code\":1}]}",
    ] {
        match decode_body(body, "animes") {
            Err(ShikicrateError::GraphQL { message, errors }) => {
                assert_eq!(message, "Unknown GraphQL error", "for {}", body);
                assert!(errors.is_some());
            }
            other => panic!("expected the service's errors for {}, got {:?}", body, other),
        }
    }
}

#[test]
fn decoder_errors_win_over_data() {
    let body = "{\"data\":{\"animes\":[{\"id\":1}]},\"errors\":[{\"message\":\"partial\"}]}";
    match decode_body(body, "animes") {
        Err(ShikicrateError::GraphQL { message, .. }) => assert_eq!(message, "partial"),
        other => panic!("expected the service's errors, got {:?}", other),
    }
}

#[test]
fn decoder_errors_win_over_missing_data() {
    match decode_body("{\"errors\":[{\"message\":\"boom\"}]}", "animes") {
        Err(error) => assert_eq!(error.kind(), ErrorKind::Protocol),
        Ok(_) => panic!("expected the service's errors"),
    }
}

#[test]
fn decoder_missing_data_cannot_be_decoded() {
    for body in ["{}", "{\"extensions\":{}}", "[]", "7", "\"data\"", "null"] {
        match decode_body(body, "animes") {
            Err(ShikicrateError::Serialization(message)) => {
                assert_eq!(message, "No data in response", "for {}", body)
            }
            other => panic!("expected a decoding failure for {}, got {:?}", body, other),
        }
    }
}

#[test]
fn decoder_body_that_is_no_json() {
    match decode_body("{", "animes") {
        Err(ShikicrateError::Serialization(message)) => {
            assert_eq!(message, "EOF while parsing an object at line 1 column 1")
        }
        other => panic!("expected a decoding failure, got {:?}", other),
    }
    match decode_body("<html>Bad Gateway</html>", "animes") {
        Err(ShikicrateError::Serialization(message)) => {
            assert_eq!(message, "expected value at line 1 column 1")
        }
        other => panic!("expected a decoding failure, got {:?}", other),
    }
    match decode_body("", "animes") {
        Err(error) => assert_eq!(error.kind(), ErrorKind::Decode),
        Ok(_) => panic!("expected a decoding failure"),
    }
}

#[test]
fn decoder_returns_the_records_of_the_field() {
    let body = "{\"data\":{\"animes\":[{\"id\":\"1\",\"name\":\"A\"},{\"id\":2,\"name\":\"B\"}]}}";
    let records = decode_body(body, "animes").unwrap();
    assert_eq!(
        records,
        vec![json("{\"id\":\"1\",\"name\":\"A\"}"), json("{\"id\":2,\"name\":\"B\"}")]
    );
}

#[test]
fn decoder_other_field_is_not_looked_at() {
    let body = "{\"data\":{\"animes\":[1,2,3],\"mangas\":[4]}}";
    assert_eq!(decode_body(body, "mangas").unwrap(), vec![json("4")]);
    assert_eq!(decode_body(body, "animes").unwrap(), vec![json("1"), json("2"), json("3")]);
}

#[test]
fn decoder_missing_field_is_an_empty_page() {
    let empty: Vec<serde_json::Value> = Vec::new();
    for body in [
        "{\"data\":{}}",
        "{\"data\":{\"mangas\":[1]}}",
        "{\"data\":null}",
        "{\"data\":[]}",
        "{\"data\":\"animes\"}",
        "{\"data\":{\"animes\":[]}}",
    ] {
        assert_eq!(decode_body(body, "animes").unwrap(), empty, "for {}", body);
    }
}

#[test]
fn decoder_field_of_wrong_shape_cannot_be_decoded() {
    for (body, cause) in [
        ("{\"data\":{\"animes\":\"oops\"}}", "invalid type: string \"oops\", expected a sequence"),
        ("{\"data\":{\"animes\":null}}", "invalid type: null, expected a sequence"),
        ("{\"data\":{\"animes\":{\"id\":1}}}", "invalid type: map, expected a sequence"),
        ("{\"data\":{\"animes\":3}}", "invalid type: integer `3`, expected a sequence"),
        ("{\"data\":{\"animes\":true}}", "invalid type: boolean `true`, expected a sequence"),
        ("{\"data\":{\"animes\":\"\"}}", "invalid type: string \"\", expected a sequence"),
    ] {
        match decode_body(body, "animes") {
            Err(ShikicrateError::Serialization(message)) => {
                assert_eq!(message, cause, "for {}", body)
            }
            other => panic!("expected a decoding failure for {}, got {:?}", body, other),
        }
    }
}

#[test]
fn decoder_wrong_shape_fails_through_every_entry() {
    let body = "{\"data\":{\"animes\":\"oops\"}}";
    let document = json(body);
    for outcome in [
        decode_document(&document, "animes"),
        decode_response(&response(200, None, body), "animes"),
        attempt_outcome(Ok(response(200, None, body)), "animes"),
    ] {
        match outcome {
            Err(error) => {
                assert_eq!(error.kind(), ErrorKind::Decode);
                assert!(!error.is_retryable());
                assert_eq!(error.message(), "invalid type: string \"oops\", expected a sequence");
            }
            Ok(records) => panic!("expected a decoding failure, got {:?}", records),
        }
    }
    assert!(decode_document(&document, "mangas").unwrap().is_empty());
}

#[test]
fn records_under_a_field() {
    let data = json("{\"people\":[{\"id\":1},null,\"x\"],\"count\":3}");
    assert_eq!(
        collect_records(&data, "people").unwrap(),
        vec![json("{\"id\":1}"), json("null"), json("\"x\"")]
    );
    assert!(collect_records(&data, "animes").unwrap().is_empty());
    match collect_records(&data, "count") {
        Err(ShikicrateError::Serialization(message)) => {
            assert_eq!(message, "invalid type: integer `3`, expected a sequence")
        }
        other => panic!("expected a decoding failure, got {:?}", other),
    }
}

#[test]
fn records_under_a_field_of_data_that_is_no_object() {
    for data in ["null", "[]", "[[1]]", "\"people\"", "7"] {
        assert!(collect_records(&json(data), "people").unwrap().is_empty(), "for {}", data);
    }
}

#[test]
fn document_is_decoded_like_its_text() {
    let document = json("{\"data\":{\"characters\":[{\"id\":5}]}}");
    assert_eq!(decode_document(&document, "characters").unwrap(), vec![json("{\"id\":5}")]);
    let failed = json("{\"errors\":[{\"message\":\"x\"},{\"message\":\"y\"},{\"message\":\"z\"}]}");
    match decode_document(&failed, "characters") {
        Err(ShikicrateError::GraphQL { message, .. }) => {
            assert_eq!(message, "Multiple GraphQL errors: x; y; z")
        }
        other => panic!("expected the service's errors, got {:?}", other),
    }
}

#[test]
fn status_429_is_throttling_with_the_hint() {
    assert_eq!(TOO_MANY_REQUESTS, 429);
    match classify_status(&response(429, Some("5"), "slow down")) {
        Some(ShikicrateError::RateLimit { message, retry_after }) => {
            assert_eq!(message, "slow down");
            assert_eq!(retry_after, Some(5));
        }
        other => panic!("expected throttling, got {:?}", other),
    }
}

#[test]
fn status_429_without_a_usable_hint() {
    for hint in [None, Some(""), Some("soon"), Some("-1"), Some("1.5"), Some("Wed, 21 Oct 2015 07:28:00 GMT")] {
        match classify_status(&response(429, hint, "{}")) {
            Some(ShikicrateError::RateLimit { message, retry_after }) => {
                assert_eq!(message, "{}");
                assert_eq!(retry_after, None, "for {:?}", hint);
            }
            other => panic!("expected throttling, got {:?}", other),
        }
    }
}

#[test]
fn status_outside_success_is_a_rejection() {
    for status in [100u16, 199, 300, 301, 400, 404, 428, 430, 500, 503, 599, 0, 65535] {
        match classify_status(&response(status, Some("5"), "body text")) {
            Some(ShikicrateError::Api { status: carried, message }) => {
                assert_eq!(carried, status);
                assert_eq!(message, "body text");
            }
            other => panic!("expected a rejection for {}, got {:?}", status, other),
        }
    }
}

#[test]
fn status_in_success_range_is_no_failure() {
    for status in [200u16, 201, 204, 250, 299] {
        assert!(classify_status(&response(status, Some("5"), "anything")).is_none());
    }
}

#[test]
fn status_is_looked_at_before_the_body() {
    let body = "{\"errors\":[{\"message\":\"from the body\"}]}";
    match decode_response(&response(500, None, body), "animes") {
        Err(ShikicrateError::Api { status, message }) => {
            assert_eq!(status, 500);
            assert_eq!(message, body);
        }
        other => panic!("expected a rejection, got {:?}", other),
    }
    match decode_response(&response(429, Some("12"), "not json"), "animes") {
        Err(ShikicrateError::RateLimit { message, retry_after }) => {
            assert_eq!(message, "not json");
            assert_eq!(retry_after, Some(12));
        }
        other => panic!("expected throttling, got {:?}", other),
    }
}

#[test]
fn hint_is_ignored_under_other_statuses() {
    let body = "{\"data\":{\"animes\":[1]}}";
    assert_eq!(decode_response(&response(200, Some("30"), body), "animes").unwrap(), vec![json("1")]);
}

#[test]
fn attempt_that_failed_in_transport() {
    let failure = HttpFailure {
        timeout: true,
        connect: false,
        request: false,
        message: "operation timed out".to_string(),
    };
    match attempt_outcome(Err(failure), "animes") {
        Err(ShikicrateError::Http(carried)) => {
            assert!(carried.timeout);
            assert!(!carried.connect);
            assert!(!carried.request);
            assert_eq!(carried.message, "operation timed out");
        }
        other => panic!("expected the transport's failure, got {:?}", other),
    }
}

#[test]
fn attempt_that_brought_a_response() {
    let body = "{\"data\":{\"userRates\":[{\"id\":9}]}}";
    assert_eq!(
        attempt_outcome(Ok(response(200, None, body)), "userRates").unwrap(),
        vec![json("{\"id\":9}")]
    );
    match attempt_outcome(Ok(response(404, None, "gone")), "userRates") {
        Err(error) => {
            assert_eq!(error.kind(), ErrorKind::ServerRejected);
            assert_eq!(error.message(), "gone");
        }
        Ok(_) => panic!("expected a rejection"),
    }
}

#[test]
fn shaped_page_passes_records_through() {
    let page: Result<Vec<u32>, String> = Ok(vec![3, 1, 2]);
    assert_eq!(shaped_page(page).unwrap(), vec![3, 1, 2]);
}

#[test]
fn shaped_page_turns_the_cause_into_a_decoding_failure() {
    let page: Result<Vec<u32>, String> = Err("missing field `name`".to_string());
    match shaped_page(page) {
        Err(ShikicrateError::Serialization(message)) => assert_eq!(message, "missing field `name`"),
        other => panic!("expected a decoding failure, got {:?}", other),
    }
}
