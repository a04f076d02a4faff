use shikicrate::pagination::{PageStep, Paginator};
use shikicrate::queries::{QueryRequest, Search, VariableValue};
use shikicrate::{
    AnimeSearchParams, CharacterSearchParams, MangaSearchParams, PeopleSearchParams,
    ShikicrateClient, ShikicrateError, UserRateSearchParams,
};

type Page = Result<Vec<&'static str>, ShikicrateError>;

/// What a walk did: the elements it handed out, with failures by their
/// message, and the `page` variable of each request it made.
struct Walked {
    handed_out: Vec<Result<&'static str, String>>,
    asked_for: Vec<Option<i32>>,
    left_over: usize,
}

fn page_of(request: &QueryRequest) -> Option<i32> {
    request.variables.iter().find(|variable| variable.name == "page").map(|variable| {
        match variable.value {
            VariableValue::Int(page) => page,
            _ => panic!("the page must be a number"),
        }
    })
}

/// Drains a walk, answering its requests with the scripted pages in order.
fn walk<S: Search>(mut paginator: Paginator<S, &'static str>, script: Vec<Page>) -> Walked {
    let mut pages = script.into_iter();
    let mut walked = Walked { handed_out: Vec::new(), asked_for: Vec::new(), left_over: 0 };
    loop {
        match paginator.poll() {
            PageStep::Yield(Ok(record)) => walked.handed_out.push(Ok(record)),
            PageStep::Yield(Err(error)) => walked.handed_out.push(Err(error.message().to_string())),
            PageStep::Fetch(request) => {
                walked.asked_for.push(page_of(&request));
                match pages.next() {
                    Some(page) => paginator.supply(page),
                    None => panic!("the walk asked for more pages than were scripted"),
                }
            }
            PageStep::Done => break,
        }
    }
    assert!(matches!(paginator.poll(), PageStep::Done));
    walked.left_over = pages.count();
    walked
}

fn client() -> ShikicrateClient {
    ShikicrateClient::new().unwrap()
}

fn characters(page: Option<i32>) -> CharacterSearchParams {
    CharacterSearchParams { page, limit: Some(2), ids: None }
}

#[test]
fn pages_come_out_record_by_record() {
    let script = vec![Ok(vec!["A", "B"]), Ok(vec!["C"]), Ok(vec![])];
    let walked = walk(client().characters_paginated(characters(None)), script);
    assert_eq!(walked.handed_out, vec![Ok("A"), Ok("B"), Ok("C")]);
    assert_eq!(walked.asked_for, vec![Some(1), Some(2), Some(3)]);
    assert_eq!(walked.left_over, 0);
}

#[test]
fn failure_comes_last_and_ends_the_walk() {
    let script = vec![
        Ok(vec!["A"]),
        Err(ShikicrateError::Api { status: 500, message: "down".to_string() }),
        Ok(vec!["never"]),
    ];
    let walked = walk(client().characters_paginated(characters(None)), script);
    assert_eq!(walked.handed_out, vec![Ok("A"), Err("down".to_string())]);
    assert_eq!(walked.asked_for, vec![Some(1), Some(2)]);
    assert_eq!(walked.left_over, 1);
}

#[test]
fn failure_on_the_first_page() {
    let script = vec![Err(ShikicrateError::Serialization("bad".to_string()))];
    let walked = walk(client().user_rates_paginated(UserRateSearchParams {
        page: None,
        limit: None,
        target_type: None,
        order_field: None,
        order: None,
    }), script);
    assert_eq!(walked.handed_out, vec![Err("bad".to_string())]);
    assert_eq!(walked.asked_for, vec![Some(1)]);
}

#[test]
fn empty_first_page_is_an_empty_sequence() {
    let walked = walk(client().characters_paginated(characters(None)), vec![Ok(vec![]), Ok(vec!["x"])]);
    assert!(walked.handed_out.is_empty());
    assert_eq!(walked.asked_for, vec![Some(1)]);
    assert_eq!(walked.left_over, 1);
}

#[test]
fn walk_starts_on_the_page_that_is_named() {
    let script = vec![Ok(vec!["A"]), Ok(vec!["B"]), Ok(vec![])];
    let walked = walk(client().characters_paginated(characters(Some(5))), script);
    assert_eq!(walked.handed_out, vec![Ok("A"), Ok("B")]);
    assert_eq!(walked.asked_for, vec![Some(5), Some(6), Some(7)]);
}

#[test]
fn next_page_is_not_asked_for_before_the_records_are_used() {
    let mut paginator: Paginator<CharacterSearchParams, u8> =
        client().characters_paginated(characters(None));
    assert_eq!(paginator.next_page(), 1);
    assert!(matches!(paginator.poll(), PageStep::Fetch(_)));
    assert!(matches!(paginator.poll(), PageStep::Fetch(_)));
    assert_eq!(paginator.next_page(), 1);
    paginator.supply(Ok(vec![1, 2, 3]));
    assert_eq!(paginator.next_page(), 2);
    assert!(matches!(paginator.poll(), PageStep::Yield(Ok(1))));
    assert!(matches!(paginator.poll(), PageStep::Yield(Ok(2))));
    assert!(matches!(paginator.poll(), PageStep::Yield(Ok(3))));
    match paginator.poll() {
        PageStep::Fetch(request) => assert_eq!(page_of(&request), Some(2)),
        _ => panic!("with the records used up the next page is due"),
    }
}

#[test]
fn lookup_by_ids_has_no_pages() {
    let params = CharacterSearchParams {
        page: Some(1),
        limit: Some(5),
        ids: Some(vec!["1".to_string(), "2".to_string()]),
    };
    let walked = walk(client().characters_paginated(params), vec![Ok(vec!["never"])]);
    assert!(walked.handed_out.is_empty());
    assert!(walked.asked_for.is_empty());
    assert_eq!(walked.left_over, 1);
}

#[test]
fn people_have_no_pages() {
    let params = PeopleSearchParams { limit: Some(5), search: Some("miyazaki".to_string()) };
    let walked = walk(client().people_paginated(params), vec![Ok(vec!["never"])]);
    assert!(walked.handed_out.is_empty());
    assert!(walked.asked_for.is_empty());
}

#[test]
fn refused_page_is_handed_out_without_a_request() {
    let walked = walk(client().characters_paginated(characters(Some(0))), vec![Ok(vec!["never"])]);
    assert_eq!(
        walked.handed_out,
        vec![Err("page must be greater than or equal to 1".to_string())]
    );
    assert!(walked.asked_for.is_empty());
    assert_eq!(walked.left_over, 1);
}

#[test]
fn refused_limit_is_handed_out_without_a_request() {
    let params = AnimeSearchParams { search: None, limit: Some(0), kind: None, page: None };
    let walked = walk(client().animes_paginated(params), vec![Ok(vec!["never"])]);
    assert_eq!(walked.handed_out, vec![Err("limit must be greater than 0".to_string())]);
    assert!(walked.asked_for.is_empty());
}

#[test]
fn anime_and_manga_walks_count_pages_without_sending_them() {
    let anime = AnimeSearchParams { search: None, limit: Some(1), kind: None, page: Some(3) };
    let mut paginator: Paginator<AnimeSearchParams, u8> = client().animes_paginated(anime);
    assert_eq!(paginator.next_page(), 3);
    match paginator.poll() {
        PageStep::Fetch(request) => {
            assert_eq!(page_of(&request), None);
            assert_eq!(request.response_key, "animes");
        }
        _ => panic!("a fresh walk asks for its first page"),
    }
    paginator.supply(Ok(vec![1]));
    assert_eq!(paginator.next_page(), 4);

    let manga = MangaSearchParams { limit: None, search: None, kind: None, page: None };
    let walked = walk(client().mangas_paginated(manga), vec![Ok(vec!["M"]), Ok(vec![])]);
    assert_eq!(walked.handed_out, vec![Ok("M")]);
    assert_eq!(walked.asked_for, vec![None, None]);
}

#[test]
fn walk_ends_after_the_last_page_number() {
    let script = vec![Ok(vec!["A"]), Ok(vec!["B"]), Ok(vec!["never"])];
    let walked = walk(client().characters_paginated(characters(Some(i32::MAX - 1))), script);
    assert_eq!(walked.handed_out, vec![Ok("A"), Ok("B")]);
    assert_eq!(walked.asked_for, vec![Some(i32::MAX - 1), Some(i32::MAX)]);
    assert_eq!(walked.left_over, 1);
}

#[test]
fn page_supplied_after_the_end_is_dropped() {
    let mut paginator: Paginator<CharacterSearchParams, u8> =
        client().characters_paginated(characters(None));
    assert!(matches!(paginator.poll(), PageStep::Fetch(_)));
    paginator.supply(Ok(Vec::new()));
    paginator.supply(Ok(vec![9]));
    assert!(matches!(paginator.poll(), PageStep::Done));
    assert_eq!(paginator.next_page(), 1);

    let mut failed: Paginator<CharacterSearchParams, u8> =
        client().characters_paginated(characters(None));
    failed.supply(Err(ShikicrateError::Validation("first".to_string())));
    failed.supply(Err(ShikicrateError::Validation("second".to_string())));
    failed.supply(Ok(vec![9]));
    match failed.poll() {
        PageStep::Yield(Err(ShikicrateError::Validation(message))) => assert_eq!(message, "first"),
        _ => panic!("the failure that closed the walk is the one handed out"),
    }
    assert!(matches!(failed.poll(), PageStep::Done));
}

#[test]
fn page_supplied_early_goes_behind_the_records_at_hand() {
    let mut paginator: Paginator<CharacterSearchParams, u8> =
        client().characters_paginated(characters(None));
    paginator.supply(Ok(vec![1, 2]));
    assert!(matches!(paginator.poll(), PageStep::Yield(Ok(1))));
    paginator.supply(Ok(vec![3]));
    assert_eq!(paginator.next_page(), 3);
    assert!(matches!(paginator.poll(), PageStep::Yield(Ok(2))));
    assert!(matches!(paginator.poll(), PageStep::Yield(Ok(3))));
    assert!(matches!(paginator.poll(), PageStep::Fetch(_)));
}

#[test]
fn walks_are_independent() {
    let client = client();
    let mut first: Paginator<CharacterSearchParams, u8> = client.characters_paginated(characters(None));
    let mut second: Paginator<CharacterSearchParams, u8> = client.characters_paginated(characters(None));
    first.supply(Ok(vec![1]));
    assert_eq!(first.next_page(), 2);
    assert_eq!(second.next_page(), 1);
    assert!(matches!(second.poll(), PageStep::Fetch(_)));
    assert!(matches!(first.poll(), PageStep::Yield(Ok(1))));
}

#[test]
fn walk_on_a_search_of_ones_own_address() {
    let params = characters(Some(2));
    let mut paginator: Paginator<CharacterSearchParams, u8> =
        Paginator::new("http://localhost:3000/graphql", params);
    match paginator.poll() {
        PageStep::Fetch(request) => {
            assert_eq!(request.url, "http://localhost:3000/graphql");
            assert_eq!(page_of(&request), Some(2));
        }
        _ => panic!("a fresh walk asks for its first page"),
    }
}
