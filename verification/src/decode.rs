//! From an HTTP response to the records of one page, or to the failure that
//! the response stands for.

use crate::error::{ErrorView, HttpFailure, ShikicrateError};
use crate::json::{
    error_message, json_document, json_elements, json_error_message, json_member,
    json_sequence_refusal, json_string, member, parse_document, sequence_refusal,
};
use crate::text::{join, joined, optional_text, parse_seconds, seconds_in, texts};
use vstd::prelude::*;
use vstd::string::StringExecFns;

verus! {

/// What the transport read from the service: the status, the retry hint if
/// the response had one that is text, and the body.
#[derive(Debug, Clone)]
pub struct HttpResponse {
    /// The HTTP status code.
    pub status: u16,
    /// The value of the `Retry-After` header.
    pub retry_after: Option<String>,
    /// The body, unparsed.
    pub body: String,
}

/// The status that stands for throttling.
pub const TOO_MANY_REQUESTS: u16 = 429;

/// Whether a status is in the success range.
pub open spec fn is_success(status: u16) -> bool {
    200 <= status <= 299
}

/// The delay that a retry hint asks for: the seconds that its text names.
pub open spec fn hinted_delay(hint: Option<Seq<char>>) -> Option<u64> {
    match hint {
        Some(text) => seconds_in(text),
        None => None,
    }
}

/// The failure that a status stands for, whatever the body holds: throttling
/// for 429, with the hinted delay and the body; a rejection for any other
/// status outside the success range, with the status and the body; none for
/// a status in the success range.
pub open spec fn status_failure(status: u16, hint: Option<Seq<char>>, body: Seq<char>) -> Option<
    ErrorView,
> {
    if status == TOO_MANY_REQUESTS {
        Some(ErrorView::RateLimit { message: body, retry_after: hinted_delay(hint) })
    } else if !is_success(status) {
        Some(ErrorView::Api { status, message: body })
    } else {
        None
    }
}

/// The message of one entry of the error channel: the text of its `message`
/// member, where it has one that is a string.
pub open spec fn entry_message(entry: serde_json::Value) -> Option<Seq<char>> {
    match json_member(entry, "message"@) {
        Some(message) => json_string(message),
        None => None,
    }
}

/// The messages of the entries, in order, skipping entries without one.
pub open spec fn entry_messages(entries: Seq<serde_json::Value>) -> Seq<Seq<char>>
    decreases entries.len(),
{
    if entries.len() == 0 {
        Seq::empty()
    } else {
        let earlier = entry_messages(entries.drop_last());
        match entry_message(entries.last()) {
            Some(message) => earlier.push(message),
            None => earlier,
        }
    }
}

/// Every message of the error channel: those of its entries where it is an
/// array, none where it is anything else.
pub open spec fn error_messages(errors: serde_json::Value) -> Seq<Seq<char>> {
    match json_elements(errors) {
        Some(entries) => entry_messages(entries),
        None => Seq::empty(),
    }
}

/// One message for the whole error channel: a fixed text where it gave no
/// message, the message where it gave one, and all of them after a fixed
/// heading where it gave several.
pub open spec fn error_summary(messages: Seq<Seq<char>>) -> Seq<char> {
    if messages.len() == 0 {
        "Unknown GraphQL error"@
    } else if messages.len() == 1 {
        messages[0]
    } else {
        "Multiple GraphQL errors: "@ + joined(messages, "; "@)
    }
}

/// Why a member that is no array cannot be read as a list of records: what
/// `serde_json` says of its shape when asked for a sequence.
pub open spec fn shape_mismatch(member: serde_json::Value) -> Seq<char> {
    json_error_message(json_sequence_refusal(member))
}

/// The records under a field of the data. Data without a member of that
/// name holds an empty page. A member of that name holds its elements where
/// it is an array, and cannot be decoded where it is anything else, null
/// included: the failure carries the mismatch of its shape.
pub open spec fn records_in(data: serde_json::Value, field: Seq<char>) -> Result<
    Seq<serde_json::Value>,
    ErrorView,
> {
    match json_member(data, field) {
        None => Ok(Seq::empty()),
        Some(list) => match json_elements(list) {
            Some(records) => Ok(records),
            None => Err(ErrorView::Serialization(shape_mismatch(list))),
        },
    }
}

/// What a parsed body stands for. An `errors` member makes it a failure of
/// the service's own, whatever else the body holds; without one, a missing
/// `data` member makes it undecodable; otherwise it stands for what the
/// data holds under the field.
pub open spec fn document_outcome(document: serde_json::Value, field: Seq<char>) -> Result<
    Seq<serde_json::Value>,
    ErrorView,
> {
    match json_member(document, "errors"@) {
        Some(errors) => Err(
            ErrorView::GraphQL {
                message: error_summary(error_messages(errors)),
                errors: Some(errors),
            },
        ),
        None => match json_member(document, "data"@) {
            Some(data) => records_in(data, field),
            None => Err(ErrorView::Serialization("No data in response"@)),
        },
    }
}

/// What a body stands for under a success status: undecodable where it is
/// no JSON document, and what the document stands for where it is one.
pub open spec fn body_outcome(body: Seq<char>, field: Seq<char>) -> Result<
    Seq<serde_json::Value>,
    ErrorView,
> {
    match json_document(body) {
        Ok(document) => document_outcome(document, field),
        Err(message) => Err(ErrorView::Serialization(message)),
    }
}

/// What a response stands for: the failure of its status where the status
/// is one, and what its body stands for otherwise.
pub open spec fn response_outcome(
    status: u16,
    hint: Option<Seq<char>>,
    body: Seq<char>,
    field: Seq<char>,
) -> Result<Seq<serde_json::Value>, ErrorView> {
    match status_failure(status, hint, body) {
        Some(failure) => Err(failure),
        None => body_outcome(body, field),
    }
}

/// The status is looked at before the body: under a status outside the
/// success range the response is a failure of that status, whatever the
/// body holds.
pub proof fn law_status_comes_before_body(
    status: u16,
    hint: Option<Seq<char>>,
    body: Seq<char>,
    field: Seq<char>,
)
    requires
        !is_success(status),
    ensures
        response_outcome(status, hint, body, field) is Err,
        status == TOO_MANY_REQUESTS ==> response_outcome(status, hint, body, field)
            == Err::<Seq<serde_json::Value>, ErrorView>(
            ErrorView::RateLimit { message: body, retry_after: hinted_delay(hint) },
        ),
        status != TOO_MANY_REQUESTS ==> response_outcome(status, hint, body, field)
            == Err::<Seq<serde_json::Value>, ErrorView>(ErrorView::Api { status, message: body }),
{
}

/// The error channel is looked at before the data: a document with an
/// `errors` member is a failure of the service's own, with or without
/// `data`; and only a document without one is undecodable for want of
/// `data`.
pub proof fn law_error_channel_comes_before_data(document: serde_json::Value, field: Seq<char>)
    ensures
        json_member(document, "errors"@) is Some ==> (document_outcome(document, field) matches Err(
            ErrorView::GraphQL { .. },
        )),
        json_member(document, "errors"@) is None ==> !(document_outcome(
            document,
            field,
        ) matches Err(ErrorView::GraphQL { .. })),
        json_member(document, "errors"@) is None && json_member(document, "data"@) is Some
            ==> document_outcome(document, field) == records_in(
            json_member(document, "data"@)->0,
            field,
        ),
{
}

/// A field that the data does not hold is an empty page and no failure.
pub proof fn law_missing_field_is_an_empty_page(data: serde_json::Value, field: Seq<char>)
    ensures
        json_member(data, field) is None ==> records_in(data, field) == Ok::<
            Seq<serde_json::Value>,
            ErrorView,
        >(Seq::empty()),
{
}

/// A field that the data holds as something other than an array is no
/// page at all: it cannot be decoded, whatever it is. Only a field that is
/// an array is a page, and the page holds its elements.
pub proof fn law_field_of_wrong_shape_cannot_be_decoded(
    data: serde_json::Value,
    field: Seq<char>,
)
    ensures
        json_member(data, field) is Some && json_elements(json_member(data, field)->0) is None
            ==> records_in(data, field) == Err::<Seq<serde_json::Value>, ErrorView>(
            ErrorView::Serialization(shape_mismatch(json_member(data, field)->0)),
        ),
        json_member(data, field) is Some && json_elements(json_member(data, field)->0) is Some
            ==> records_in(data, field) == Ok::<Seq<serde_json::Value>, ErrorView>(
            json_elements(json_member(data, field)->0)->0,
        ),
{
}

/// Whether the outcome that was computed is the expected one: the same
/// records, or a failure of the same value.
pub open spec fn outcome_matches(
    outcome: Result<Vec<serde_json::Value>, ShikicrateError>,
    expected: Result<Seq<serde_json::Value>, ErrorView>,
) -> bool {
    match outcome {
        Ok(records) => expected == Ok::<Seq<serde_json::Value>, ErrorView>(records@),
        Err(error) => expected == Err::<Seq<serde_json::Value>, ErrorView>(error@),
    }
}

/// Draws the messages of the error channel into one.
pub fn summarize_errors(messages: &Vec<String>) -> (summary: String)
    ensures
        summary@ == error_summary(texts(messages@)),
{
    if messages.len() == 0 {
        String::from_str("Unknown GraphQL error")
    } else if messages.len() == 1 {
        messages[0].clone()
    } else {
        let mut summary = String::from_str("Multiple GraphQL errors: ");
        let list = join(messages, "; ");
        summary.append(list.as_str());
        summary
    }
}

/// Collects every message that the entries of the error channel carry.
pub fn collect_error_messages(errors: &serde_json::Value) -> (messages: Vec<String>)
    ensures
        texts(messages@) == error_messages(*errors),
{
    let mut messages: Vec<String> = Vec::new();
    match errors.as_array() {
        Some(entries) => {
            let mut i: usize = 0;
            while i < entries.len()
                invariant
                    i <= entries.len(),
                    texts(messages@) == entry_messages(entries@.take(i as int)),
                decreases entries.len() - i,
            {
                proof {
                    let earlier = entries@.take(i as int);
                    let later = entries@.take(i + 1);
                    assert(later.drop_last() =~= earlier);
                }
                match member(&entries[i], "message") {
                    Some(message) => match message.as_str() {
                        Some(text) => {
                            messages.push(text.to_string());
                        },
                        None => {},
                    },
                    None => {},
                }
                i += 1;
            }
            assert(entries@.take(entries.len() as int) =~= entries@);
        },
        None => {},
    }
    messages
}

/// Copies the records under a field of the data, or says why what stands
/// under the field is no list of records.
pub fn collect_records(data: &serde_json::Value, field: &str) -> (outcome: Result<
    Vec<serde_json::Value>,
    ShikicrateError,
>)
    ensures
        outcome_matches(outcome, records_in(*data, field@)),
{
    let mut records: Vec<serde_json::Value> = Vec::new();
    match member(data, field) {
        None => {
            assert(records@ =~= Seq::empty());
            Ok(records)
        },
        Some(list) => match list.as_array() {
            Some(found) => {
                let mut i: usize = 0;
                while i < found.len()
                    invariant
                        i <= found.len(),
                        records@ == found@.take(i as int),
                    decreases found.len() - i,
                {
                    records.push(found[i].clone());
                    i += 1;
                }
                assert(records@ =~= found@);
                Ok(records)
            },
            None => match sequence_refusal(list) {
                Some(error) => Err(ShikicrateError::Serialization(error_message(&error))),
                // Only an array is not refused, and this member is none.
                None => unreached(),
            },
        },
    }
}

/// Decodes a parsed body: the records under the field, or the failure that
/// the document stands for.
pub fn decode_document(document: &serde_json::Value, field: &str) -> (outcome: Result<
    Vec<serde_json::Value>,
    ShikicrateError,
>)
    ensures
        outcome_matches(outcome, document_outcome(*document, field@)),
{
    match member(document, "errors") {
        Some(errors) => {
            let messages = collect_error_messages(errors);
            Err(
                ShikicrateError::GraphQL {
                    message: summarize_errors(&messages),
                    errors: Some(errors.clone()),
                },
            )
        },
        None => match member(document, "data") {
            Some(data) => collect_records(data, field),
            None => Err(ShikicrateError::Serialization(String::from_str("No data in response"))),
        },
    }
}

/// Decodes the body of a response whose status is in the success range.
pub fn decode_body(body: &str, field: &str) -> (outcome: Result<
    Vec<serde_json::Value>,
    ShikicrateError,
>)
    ensures
        outcome_matches(outcome, body_outcome(body@, field@)),
{
    match parse_document(body) {
        Ok(document) => decode_document(&document, field),
        Err(error) => Err(ShikicrateError::Serialization(error_message(&error))),
    }
}

/// The failure that the status of a response stands for, if it is one.
pub fn classify_status(response: &HttpResponse) -> (failure: Option<ShikicrateError>)
    ensures
        match failure {
            Some(error) => status_failure(
                response.status,
                optional_text(response.retry_after),
                response.body@,
            ) == Some(error@),
            None => status_failure(
                response.status,
                optional_text(response.retry_after),
                response.body@,
            ) is None,
        },
{
    if response.status == TOO_MANY_REQUESTS {
        let retry_after = match &response.retry_after {
            Some(text) => parse_seconds(text.as_str()),
            None => None,
        };
        Some(ShikicrateError::RateLimit { message: response.body.clone(), retry_after })
    } else if response.status < 200 || response.status > 299 {
        Some(ShikicrateError::Api { status: response.status, message: response.body.clone() })
    } else {
        None
    }
}

/// Decodes a response: the records of the page under `field`, or the
/// failure that the response stands for.
pub fn decode_response(response: &HttpResponse, field: &str) -> (outcome: Result<
    Vec<serde_json::Value>,
    ShikicrateError,
>)
    ensures
        outcome_matches(
            outcome,
            response_outcome(
                response.status,
                optional_text(response.retry_after),
                response.body@,
                field@,
            ),
        ),
{
    match classify_status(response) {
        Some(failure) => Err(failure),
        None => decode_body(response.body.as_str(), field),
    }
}

/// The outcome of one attempt: the failure of the transport where the
/// exchange failed, and what the response decodes to where it did not.
pub fn attempt_outcome(exchange: Result<HttpResponse, HttpFailure>, field: &str) -> (outcome:
    Result<Vec<serde_json::Value>, ShikicrateError>)
    ensures
        match exchange {
            Ok(response) => outcome_matches(
                outcome,
                response_outcome(
                    response.status,
                    optional_text(response.retry_after),
                    response.body@,
                    field@,
                ),
            ),
            Err(failure) => outcome == Err::<Vec<serde_json::Value>, ShikicrateError>(
                ShikicrateError::Http(failure),
            ),
        },
{
    match exchange {
        Ok(response) => decode_response(&response, field),
        Err(failure) => Err(ShikicrateError::Http(failure)),
    }
}

/// The page that the records were shaped into, or the failure to shape
/// them: the cause becomes a decoding failure that carries its text.
pub fn shaped_page<T>(shaped: Result<Vec<T>, String>) -> (page: Result<Vec<T>, ShikicrateError>)
    ensures
        match shaped {
            Ok(records) => page == Ok::<Vec<T>, ShikicrateError>(records),
            Err(cause) => page == Err::<Vec<T>, ShikicrateError>(
                ShikicrateError::Serialization(cause),
            ),
        },
{
    match shaped {
        Ok(records) => Ok(records),
        Err(cause) => Err(ShikicrateError::Serialization(cause)),
    }
}

} // verus!
