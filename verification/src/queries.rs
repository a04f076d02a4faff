//! Search parameters, the rules for them, and the requests they turn into.
//!
//! Every search is planned before anything is sent: the parameters are held
//! to the rules, and only parameters that pass become a request. A refused
//! search therefore never reaches the network.

use crate::client::ShikicrateClient;
use crate::documents::{
    ANIMES_QUERY, CHARACTERS_BY_IDS_QUERY, CHARACTERS_QUERY, MANGAS_QUERY, MANGAS_QUERY_ANY_KIND,
    PEOPLE_QUERY, USER_RATES_QUERY,
};
use crate::error::{verdict_matches, ErrorView, ShikicrateError};
use crate::text::{optional_text, texts};
use vstd::prelude::*;
use vstd::string::StringExecFns;

verus! {

/// What to search anime by.
#[derive(Debug, Clone)]
pub struct AnimeSearchParams {
    /// Words of the title.
    pub search: Option<String>,
    /// The most records to return; greater than zero.
    pub limit: Option<i32>,
    /// The kind of anime, such as `tv`; a leading `!` excludes the kind.
    pub kind: Option<String>,
    /// The page to start from when the search is walked page by page.
    pub page: Option<i32>,
}

/// What to search manga by.
#[derive(Debug, Clone)]
pub struct MangaSearchParams {
    /// The most records to return; greater than zero.
    pub limit: Option<i32>,
    /// Words of the title.
    pub search: Option<String>,
    /// The kind of manga, such as `manhwa`.
    pub kind: Option<String>,
    /// The page to start from when the search is walked page by page.
    pub page: Option<i32>,
}

/// What to search people by.
#[derive(Debug, Clone)]
pub struct PeopleSearchParams {
    /// The most records to return; greater than zero.
    pub limit: Option<i32>,
    /// Words of the name.
    pub search: Option<String>,
}

/// What to search characters by: a page and a limit, or a list of ids.
#[derive(Debug, Clone)]
pub struct CharacterSearchParams {
    /// The page, counted from one.
    pub page: Option<i32>,
    /// The most records on a page; greater than zero.
    pub limit: Option<i32>,
    /// The ids to look up. Where given, page and limit are not sent, and
    /// the list must not be empty.
    pub ids: Option<Vec<String>>,
}

/// What to search user rates by.
#[derive(Debug, Clone)]
pub struct UserRateSearchParams {
    /// The page, counted from one.
    pub page: Option<i32>,
    /// The most records on a page; greater than zero.
    pub limit: Option<i32>,
    /// `Anime` or `Manga`.
    pub target_type: Option<String>,
    /// The field to order by.
    pub order_field: Option<String>,
    /// `asc` or `desc`; `desc` where a field is given without a direction.
    pub order: Option<String>,
}

/// The value of one query variable.
#[derive(Debug, Clone)]
pub enum VariableValue {
    /// A string.
    Text(String),
    /// An integer.
    Int(i32),
    /// A list of strings.
    TextList(Vec<String>),
    /// An order: the field to sort by and the direction.
    SortOrder { field: String, order: String },
}

/// One query variable.
#[derive(Debug, Clone)]
pub struct Variable {
    /// The name, without the dollar sign.
    pub name: String,
    /// The value.
    pub value: VariableValue,
}

/// Everything the transport needs for one query.
#[derive(Debug, Clone)]
pub struct QueryRequest {
    /// The address to post to.
    pub url: String,
    /// The query document.
    pub query: String,
    /// The variables, in the order in which they were set.
    pub variables: Vec<Variable>,
    /// The member of the response's data that holds the records.
    pub response_key: String,
}

/// The mathematical value of a [`VariableValue`].
pub enum ValueView {
    Text(Seq<char>),
    Int(i32),
    TextList(Seq<Seq<char>>),
    SortOrder { field: Seq<char>, order: Seq<char> },
}

/// The mathematical value of a [`Variable`].
pub struct VariableView {
    pub name: Seq<char>,
    pub value: ValueView,
}

/// The mathematical value of a [`QueryRequest`].
pub struct RequestView {
    pub url: Seq<char>,
    pub query: Seq<char>,
    pub variables: Seq<VariableView>,
    pub response_key: Seq<char>,
}

impl View for VariableValue {
    type V = ValueView;

    open spec fn view(&self) -> ValueView {
        match *self {
            VariableValue::Text(text) => ValueView::Text(text@),
            VariableValue::Int(number) => ValueView::Int(number),
            VariableValue::TextList(list) => ValueView::TextList(texts(list@)),
            VariableValue::SortOrder { field, order } => ValueView::SortOrder {
                field: field@,
                order: order@,
            },
        }
    }
}

impl View for Variable {
    type V = VariableView;

    open spec fn view(&self) -> VariableView {
        VariableView { name: self.name@, value: self.value@ }
    }
}

/// The values of a list of variables.
pub open spec fn variable_views(variables: Seq<Variable>) -> Seq<VariableView> {
    Seq::new(variables.len(), |i: int| variables[i]@)
}

impl View for QueryRequest {
    type V = RequestView;

    open spec fn view(&self) -> RequestView {
        RequestView {
            url: self.url@,
            query: self.query@,
            variables: variable_views(self.variables@),
            response_key: self.response_key@,
        }
    }
}

/// Why a limit is refused, if it is: it is given and not greater than zero.
pub open spec fn limit_refusal(limit: Option<i32>) -> Option<Seq<char>> {
    match limit {
        Some(limit) if limit <= 0 => Some("limit must be greater than 0"@),
        _ => None,
    }
}

/// Why a page is refused, if it is: it is given and less than one.
pub open spec fn page_refusal(page: Option<i32>) -> Option<Seq<char>> {
    match page {
        Some(page) if page < 1 => Some("page must be greater than or equal to 1"@),
        _ => None,
    }
}

/// Why a list of ids is refused, if it is: it is given and empty.
pub open spec fn ids_refusal(ids: Option<Seq<String>>) -> Option<Seq<char>> {
    match ids {
        Some(ids) if ids.len() == 0 => Some("ids must not be empty"@),
        _ => None,
    }
}

/// The first refusal of two checks that are made in turn.
pub open spec fn first_refusal(first: Option<Seq<char>>, second: Option<Seq<char>>) -> Option<
    Seq<char>,
> {
    if first is Some {
        first
    } else {
        second
    }
}

/// The ids as a sequence, where a list is given.
pub open spec fn optional_ids(ids: Option<Vec<String>>) -> Option<Seq<String>> {
    match ids {
        Some(ids) => Some(ids@),
        None => None,
    }
}

/// Holds a limit to its rule.
pub fn val_lim(limit: Option<i32>) -> (verdict: Result<(), ShikicrateError>)
    ensures
        verdict_matches(verdict, limit_refusal(limit)),
{
    match limit {
        Some(limit) if limit <= 0 => Err(
            ShikicrateError::Validation(String::from_str("limit must be greater than 0")),
        ),
        _ => Ok(()),
    }
}

/// Holds a page to its rule.
pub fn val_pg(page: Option<i32>) -> (verdict: Result<(), ShikicrateError>)
    ensures
        verdict_matches(verdict, page_refusal(page)),
{
    match page {
        Some(page) if page < 1 => Err(
            ShikicrateError::Validation(
                String::from_str("page must be greater than or equal to 1"),
            ),
        ),
        _ => Ok(()),
    }
}

/// Holds a list of ids to its rule.
pub fn val_ids(ids: Option<&Vec<String>>) -> (verdict: Result<(), ShikicrateError>)
    ensures
        verdict_matches(
            verdict,
            ids_refusal(
                match ids {
                    Some(ids) => Some(ids@),
                    None => None,
                },
            ),
        ),
{
    match ids {
        Some(ids) if ids.len() == 0 => Err(
            ShikicrateError::Validation(String::from_str("ids must not be empty")),
        ),
        _ => Ok(()),
    }
}

/// A limit of zero or less is refused, whatever else is asked for.
pub proof fn law_limit_must_be_positive(limit: i32)
    requires
        limit <= 0,
    ensures
        limit_refusal(Some(limit)) == Some("limit must be greater than 0"@),
{
}

/// A page below one is refused, whatever else is asked for.
pub proof fn law_page_must_be_positive(page: i32)
    requires
        page < 1,
    ensures
        page_refusal(Some(page)) == Some("page must be greater than or equal to 1"@),
{
}

/// An empty list of ids is refused.
pub proof fn law_ids_must_not_be_empty(ids: Seq<String>)
    requires
        ids.len() == 0,
    ensures
        ids_refusal(Some(ids)) == Some("ids must not be empty"@),
{
}

/// The variable of a name for a text, where the text is given.
pub open spec fn text_variable(name: Seq<char>, value: Option<Seq<char>>) -> Seq<VariableView> {
    match value {
        Some(text) => seq![VariableView { name, value: ValueView::Text(text) }],
        None => Seq::empty(),
    }
}

/// The variable of a name for a number, where the number is given.
pub open spec fn int_variable(name: Seq<char>, value: Option<i32>) -> Seq<VariableView> {
    match value {
        Some(number) => seq![VariableView { name, value: ValueView::Int(number) }],
        None => Seq::empty(),
    }
}

/// The variables that most searches share: `search`, `page` and `limit`,
/// each where it is given, in this order.
pub open spec fn common_variables(
    search: Option<Seq<char>>,
    page: Option<i32>,
    limit: Option<i32>,
) -> Seq<VariableView> {
    text_variable("search"@, search) + int_variable("page"@, page) + int_variable("limit"@, limit)
}

/// The variable `order` of a search for user rates: the field where one is
/// given, with the direction, which is `desc` unless one is given too.
pub open spec fn order_variable(field: Option<Seq<char>>, order: Option<Seq<char>>) -> Seq<
    VariableView,
> {
    match field {
        Some(field) => seq![
            VariableView {
                name: "order"@,
                value: ValueView::SortOrder {
                    field,
                    order: match order {
                        Some(order) => order,
                        None => "desc"@,
                    },
                },
            },
        ],
        None => Seq::empty(),
    }
}

/// Adds a variable to the end of a list.
fn push_variable(variables: &mut Vec<Variable>, name: &str, value: VariableValue)
    ensures
        variable_views(final(variables)@) == variable_views(old(variables)@).push(
            VariableView { name: name@, value: value@ },
        ),
{
    let ghost before = variables@;
    variables.push(Variable { name: String::from_str(name), value });
    assert(variable_views(variables@) =~= variable_views(before).push(
        VariableView { name: name@, value: value@ },
    ));
}

/// Adds a text variable to the end of a list, where the text is given.
fn push_text(variables: &mut Vec<Variable>, name: &str, value: Option<String>)
    ensures
        variable_views(final(variables)@) == variable_views(old(variables)@) + text_variable(
            name@,
            optional_text(value),
        ),
{
    match value {
        Some(text) => {
            push_variable(variables, name, VariableValue::Text(text));
            assert(variable_views(variables@) =~= variable_views(old(variables)@) + text_variable(
                name@,
                optional_text(value),
            ));
        },
        None => {
            assert(variable_views(variables@) =~= variable_views(old(variables)@)
                + Seq::<VariableView>::empty());
        },
    }
}

/// Adds a number variable to the end of a list, where the number is given.
fn push_int(variables: &mut Vec<Variable>, name: &str, value: Option<i32>)
    ensures
        variable_views(final(variables)@) == variable_views(old(variables)@) + int_variable(
            name@,
            value,
        ),
{
    match value {
        Some(number) => {
            push_variable(variables, name, VariableValue::Int(number));
            assert(variable_views(variables@) =~= variable_views(old(variables)@) + int_variable(
                name@,
                value,
            ));
        },
        None => {
            assert(variable_views(variables@) =~= variable_views(old(variables)@)
                + Seq::<VariableView>::empty());
        },
    }
}

/// The variables that most searches share.
pub fn build_vars(search: Option<String>, page: Option<i32>, limit: Option<i32>) -> (variables:
    Vec<Variable>)
    ensures
        variable_views(variables@) == common_variables(optional_text(search), page, limit),
{
    let mut variables: Vec<Variable> = Vec::new();
    push_text(&mut variables, "search", search);
    push_int(&mut variables, "page", page);
    push_int(&mut variables, "limit", limit);
    variables
}

/// A search that can be planned: held to its rules and turned into a
/// request. A search may also be walkable page by page.
pub trait Search: Sized {
    /// Why the search is refused, if it is.
    spec fn refusal(&self) -> Option<Seq<char>>;

    /// The query document of the search.
    spec fn document(&self) -> Seq<char>;

    /// The variables of the search, in the order in which they are set.
    spec fn variables(&self) -> Seq<VariableView>;

    /// The member of the response's data under which the records come back.
    spec fn response_key(&self) -> Seq<char>;

    /// Whether the search has pages to walk.
    spec fn pageable(&self) -> bool;

    /// The page that the search asks for, if it names one.
    spec fn start_page(&self) -> Option<i32>;

    /// The same search, asking for the given page.
    spec fn on_page(&self, page: i32) -> Self;

    /// Plans the search for a service at `url`: refuses it for the reason
    /// that [`Search::refusal`] gives, and otherwise builds the request.
    fn plan(self, url: &str) -> (planned: Result<QueryRequest, ShikicrateError>)
        ensures
            plan_matches(
                planned,
                self.refusal(),
                RequestView {
                    url: url@,
                    query: self.document(),
                    variables: self.variables(),
                    response_key: self.response_key(),
                },
            ),
    ;

    /// Whether the search has pages to walk.
    fn is_pageable(&self) -> (pageable: bool)
        ensures
            pageable == self.pageable(),
    ;

    /// The page that the search asks for, if it names one.
    fn page(&self) -> (page: Option<i32>)
        ensures
            page == self.start_page(),
    ;

    /// The same search, asking for the given page.
    fn at_page(&self, page: i32) -> (moved: Self)
        ensures
            moved == self.on_page(page),
    ;
}

/// The request that a search is planned as, unless it is refused.
pub open spec fn planned_request<S: Search>(search: S, url: Seq<char>) -> RequestView {
    RequestView {
        url,
        query: search.document(),
        variables: search.variables(),
        response_key: search.response_key(),
    }
}

/// Whether a plan is the one that the rules call for: a failure with the
/// reason where the search is refused, and the expected request otherwise.
pub open spec fn plan_matches(
    planned: Result<QueryRequest, ShikicrateError>,
    refusal: Option<Seq<char>>,
    expected: RequestView,
) -> bool {
    match planned {
        Ok(request) => refusal is None && request@ == expected,
        Err(error) => refusal is Some && error@ == ErrorView::Validation(refusal->0),
    }
}

/// A request to the service at `url`.
fn request(url: &str, query: &str, variables: Vec<Variable>, response_key: &str) -> (request:
    QueryRequest)
    ensures
        request@ == (RequestView {
            url: url@,
            query: query@,
            variables: variable_views(variables@),
            response_key: response_key@,
        }),
{
    QueryRequest {
        url: String::from_str(url),
        query: String::from_str(query),
        variables,
        response_key: String::from_str(response_key),
    }
}

/// A copy of a text that may be absent.
fn copy_text(text: &Option<String>) -> (copy: Option<String>)
    ensures
        copy == *text,
{
    match text {
        Some(text) => Some(text.clone()),
        None => None,
    }
}

impl Search for AnimeSearchParams {
    /// An anime search is refused for a limit that is not positive.
    open spec fn refusal(&self) -> Option<Seq<char>> {
        limit_refusal(self.limit)
    }

    open spec fn document(&self) -> Seq<char> {
        ANIMES_QUERY@
    }

    /// `search` and `limit`, then `kind`. The page is not sent.
    open spec fn variables(&self) -> Seq<VariableView> {
        common_variables(optional_text(self.search), None, self.limit) + text_variable(
            "kind"@,
            optional_text(self.kind),
        )
    }

    open spec fn response_key(&self) -> Seq<char> {
        "animes"@
    }

    open spec fn pageable(&self) -> bool {
        true
    }

    open spec fn start_page(&self) -> Option<i32> {
        self.page
    }

    open spec fn on_page(&self, page: i32) -> AnimeSearchParams {
        AnimeSearchParams {
            search: self.search,
            limit: self.limit,
            kind: self.kind,
            page: Some(page),
        }
    }

    fn plan(self, url: &str) -> (planned: Result<QueryRequest, ShikicrateError>) {
        match val_lim(self.limit) {
            Err(error) => {
                return Err(error);
            },
            Ok(_) => {},
        }
        let mut variables = build_vars(self.search, None, self.limit);
        push_text(&mut variables, "kind", self.kind);
        Ok(request(url, ANIMES_QUERY, variables, "animes"))
    }

    fn is_pageable(&self) -> (pageable: bool) {
        true
    }

    fn page(&self) -> (page: Option<i32>) {
        self.page
    }

    fn at_page(&self, page: i32) -> (moved: AnimeSearchParams) {
        AnimeSearchParams {
            search: copy_text(&self.search),
            limit: self.limit,
            kind: copy_text(&self.kind),
            page: Some(page),
        }
    }
}

impl Search for MangaSearchParams {
    /// A manga search is refused for a limit that is not positive.
    open spec fn refusal(&self) -> Option<Seq<char>> {
        limit_refusal(self.limit)
    }

    /// The document that filters by kind where a kind is given, and the
    /// one that names no kind otherwise.
    open spec fn document(&self) -> Seq<char> {
        if self.kind is Some {
            MANGAS_QUERY@
        } else {
            MANGAS_QUERY_ANY_KIND@
        }
    }

    /// `search` and `limit`, then `kind`. The page is not sent.
    open spec fn variables(&self) -> Seq<VariableView> {
        common_variables(optional_text(self.search), None, self.limit) + text_variable(
            "kind"@,
            optional_text(self.kind),
        )
    }

    open spec fn response_key(&self) -> Seq<char> {
        "mangas"@
    }

    open spec fn pageable(&self) -> bool {
        true
    }

    open spec fn start_page(&self) -> Option<i32> {
        self.page
    }

    open spec fn on_page(&self, page: i32) -> MangaSearchParams {
        MangaSearchParams {
            limit: self.limit,
            search: self.search,
            kind: self.kind,
            page: Some(page),
        }
    }

    fn plan(self, url: &str) -> (planned: Result<QueryRequest, ShikicrateError>) {
        match val_lim(self.limit) {
            Err(error) => {
                return Err(error);
            },
            Ok(_) => {},
        }
        let query = if self.kind.is_some() {
            MANGAS_QUERY
        } else {
            MANGAS_QUERY_ANY_KIND
        };
        let mut variables = build_vars(self.search, None, self.limit);
        push_text(&mut variables, "kind", self.kind);
        Ok(request(url, query, variables, "mangas"))
    }

    fn is_pageable(&self) -> (pageable: bool) {
        true
    }

    fn page(&self) -> (page: Option<i32>) {
        self.page
    }

    fn at_page(&self, page: i32) -> (moved: MangaSearchParams) {
        MangaSearchParams {
            limit: self.limit,
            search: copy_text(&self.search),
            kind: copy_text(&self.kind),
            page: Some(page),
        }
    }
}

impl Search for PeopleSearchParams {
    /// A search for people is refused for a limit that is not positive.
    open spec fn refusal(&self) -> Option<Seq<char>> {
        limit_refusal(self.limit)
    }

    open spec fn document(&self) -> Seq<char> {
        PEOPLE_QUERY@
    }

    /// `search` and `limit`.
    open spec fn variables(&self) -> Seq<VariableView> {
        common_variables(optional_text(self.search), None, self.limit)
    }

    open spec fn response_key(&self) -> Seq<char> {
        "people"@
    }

    /// The service has no pages of people.
    open spec fn pageable(&self) -> bool {
        false
    }

    open spec fn start_page(&self) -> Option<i32> {
        None
    }

    open spec fn on_page(&self, page: i32) -> PeopleSearchParams {
        *self
    }

    fn plan(self, url: &str) -> (planned: Result<QueryRequest, ShikicrateError>) {
        match val_lim(self.limit) {
            Err(error) => {
                return Err(error);
            },
            Ok(_) => {},
        }
        let variables = build_vars(self.search, None, self.limit);
        Ok(request(url, PEOPLE_QUERY, variables, "people"))
    }

    fn is_pageable(&self) -> (pageable: bool) {
        false
    }

    fn page(&self) -> (page: Option<i32>) {
        None
    }

    fn at_page(&self, page: i32) -> (moved: PeopleSearchParams) {
        PeopleSearchParams { limit: self.limit, search: copy_text(&self.search) }
    }
}

impl Search for CharacterSearchParams {
    /// A search for characters is refused for a page below one, else for a
    /// limit that is not positive, else for an empty list of ids.
    open spec fn refusal(&self) -> Option<Seq<char>> {
        first_refusal(
            page_refusal(self.page),
            first_refusal(limit_refusal(self.limit), ids_refusal(optional_ids(self.ids))),
        )
    }

    /// The lookup by ids where ids are given, and the search by page
    /// otherwise.
    open spec fn document(&self) -> Seq<char> {
        if self.ids is Some {
            CHARACTERS_BY_IDS_QUERY@
        } else {
            CHARACTERS_QUERY@
        }
    }

    /// The ids alone where ids are given, and `page` and `limit` otherwise.
    open spec fn variables(&self) -> Seq<VariableView> {
        match self.ids {
            Some(ids) => seq![
                VariableView { name: "ids"@, value: ValueView::TextList(texts(ids@)) },
            ],
            None => common_variables(None, self.page, self.limit),
        }
    }

    open spec fn response_key(&self) -> Seq<char> {
        "characters"@
    }

    /// A lookup by ids has no pages.
    open spec fn pageable(&self) -> bool {
        self.ids is None
    }

    open spec fn start_page(&self) -> Option<i32> {
        self.page
    }

    /// The search by page for the given page: the ids, which have no
    /// pages, are left behind.
    open spec fn on_page(&self, page: i32) -> CharacterSearchParams {
        CharacterSearchParams { page: Some(page), limit: self.limit, ids: None }
    }

    fn plan(self, url: &str) -> (planned: Result<QueryRequest, ShikicrateError>) {
        match val_pg(self.page) {
            Err(error) => {
                return Err(error);
            },
            Ok(_) => {},
        }
        match val_lim(self.limit) {
            Err(error) => {
                return Err(error);
            },
            Ok(_) => {},
        }
        match val_ids(self.ids.as_ref()) {
            Err(error) => {
                return Err(error);
            },
            Ok(_) => {},
        }
        match self.ids {
            Some(ids) => {
                let mut variables: Vec<Variable> = Vec::new();
                assert(variable_views(variables@) =~= Seq::empty());
                push_variable(&mut variables, "ids", VariableValue::TextList(ids));
                Ok(request(url, CHARACTERS_BY_IDS_QUERY, variables, "characters"))
            },
            None => {
                let variables = build_vars(None, self.page, self.limit);
                Ok(request(url, CHARACTERS_QUERY, variables, "characters"))
            },
        }
    }

    fn is_pageable(&self) -> (pageable: bool) {
        self.ids.is_none()
    }

    fn page(&self) -> (page: Option<i32>) {
        self.page
    }

    fn at_page(&self, page: i32) -> (moved: CharacterSearchParams) {
        CharacterSearchParams { page: Some(page), limit: self.limit, ids: None }
    }
}

impl Search for UserRateSearchParams {
    /// A search for user rates is refused for a page below one, else for a
    /// limit that is not positive.
    open spec fn refusal(&self) -> Option<Seq<char>> {
        first_refusal(page_refusal(self.page), limit_refusal(self.limit))
    }

    open spec fn document(&self) -> Seq<char> {
        USER_RATES_QUERY@
    }

    /// `page` and `limit`, then `targetType`, then `order`.
    open spec fn variables(&self) -> Seq<VariableView> {
        common_variables(None, self.page, self.limit) + text_variable(
            "targetType"@,
            optional_text(self.target_type),
        ) + order_variable(optional_text(self.order_field), optional_text(self.order))
    }

    open spec fn response_key(&self) -> Seq<char> {
        "userRates"@
    }

    open spec fn pageable(&self) -> bool {
        true
    }

    open spec fn start_page(&self) -> Option<i32> {
        self.page
    }

    open spec fn on_page(&self, page: i32) -> UserRateSearchParams {
        UserRateSearchParams {
            page: Some(page),
            limit: self.limit,
            target_type: self.target_type,
            order_field: self.order_field,
            order: self.order,
        }
    }

    fn plan(self, url: &str) -> (planned: Result<QueryRequest, ShikicrateError>) {
        match val_pg(self.page) {
            Err(error) => {
                return Err(error);
            },
            Ok(_) => {},
        }
        match val_lim(self.limit) {
            Err(error) => {
                return Err(error);
            },
            Ok(_) => {},
        }
        let mut variables = build_vars(None, self.page, self.limit);
        push_text(&mut variables, "targetType", self.target_type);
        match self.order_field {
            Some(field) => {
                let order = match self.order {
                    Some(order) => order,
                    None => String::from_str("desc"),
                };
                let ghost before = variable_views(variables@);
                push_variable(&mut variables, "order", VariableValue::SortOrder { field, order });
                assert(variable_views(variables@) =~= before + order_variable(
                    optional_text(self.order_field),
                    optional_text(self.order),
                ));
            },
            None => {
                assert(variable_views(variables@) =~= variable_views(variables@)
                    + Seq::<VariableView>::empty());
            },
        }
        Ok(request(url, USER_RATES_QUERY, variables, "userRates"))
    }

    fn is_pageable(&self) -> (pageable: bool) {
        true
    }

    fn page(&self) -> (page: Option<i32>) {
        self.page
    }

    fn at_page(&self, page: i32) -> (moved: UserRateSearchParams) {
        UserRateSearchParams {
            page: Some(page),
            limit: self.limit,
            target_type: copy_text(&self.target_type),
            order_field: copy_text(&self.order_field),
            order: copy_text(&self.order),
        }
    }
}

impl ShikicrateClient {
    /// Plans an anime search for this client's service: refuses a limit
    /// that is not positive, and otherwise gives the request to send.
    pub fn animes(&self, params: AnimeSearchParams) -> (planned: Result<
        QueryRequest,
        ShikicrateError,
    >)
        ensures
            plan_matches(planned, params.refusal(), planned_request(params, self@.base_url)),
    {
        params.plan(self.base_url())
    }

    /// Plans a manga search for this client's service: refuses a limit
    /// that is not positive, and otherwise gives the request to send.
    pub fn mangas(&self, params: MangaSearchParams) -> (planned: Result<
        QueryRequest,
        ShikicrateError,
    >)
        ensures
            plan_matches(planned, params.refusal(), planned_request(params, self@.base_url)),
    {
        params.plan(self.base_url())
    }

    /// Plans a search for people for this client's service: refuses a
    /// limit that is not positive, and otherwise gives the request to send.
    pub fn people(&self, params: PeopleSearchParams) -> (planned: Result<
        QueryRequest,
        ShikicrateError,
    >)
        ensures
            plan_matches(planned, params.refusal(), planned_request(params, self@.base_url)),
    {
        params.plan(self.base_url())
    }

    /// Plans a search for characters for this client's service: refuses a
    /// page below one, a limit that is not positive and an empty list of
    /// ids, in this order, and otherwise gives the request to send.
    pub fn characters(&self, params: CharacterSearchParams) -> (planned: Result<
        QueryRequest,
        ShikicrateError,
    >)
        ensures
            plan_matches(planned, params.refusal(), planned_request(params, self@.base_url)),
    {
        params.plan(self.base_url())
    }

    /// Plans a search for user rates for this client's service: refuses a
    /// page below one and a limit that is not positive, in this order, and
    /// otherwise gives the request to send.
    pub fn user_rates(&self, params: UserRateSearchParams) -> (planned: Result<
        QueryRequest,
        ShikicrateError,
    >)
        ensures
            plan_matches(planned, params.refusal(), planned_request(params, self@.base_url)),
    {
        params.plan(self.base_url())
    }
}

/// A search whose limit is zero or less is refused, so that no request for
/// it exists to be sent.
pub proof fn law_refused_limit_plans_nothing(
    anime: AnimeSearchParams,
    manga: MangaSearchParams,
    people: PeopleSearchParams,
    characters: CharacterSearchParams,
    user_rates: UserRateSearchParams,
    limit: i32,
)
    requires
        limit <= 0,
    ensures
        anime.limit == Some(limit) ==> anime.refusal() is Some,
        manga.limit == Some(limit) ==> manga.refusal() is Some,
        people.limit == Some(limit) ==> people.refusal() is Some,
        characters.limit == Some(limit) ==> characters.refusal() is Some,
        user_rates.limit == Some(limit) ==> user_rates.refusal() is Some,
{
}

/// A search by page whose page is below one is refused, so that no request
/// for it exists to be sent.
pub proof fn law_refused_page_plans_nothing(
    characters: CharacterSearchParams,
    user_rates: UserRateSearchParams,
    page: i32,
)
    requires
        page < 1,
    ensures
        characters.page == Some(page) ==> characters.refusal() is Some,
        user_rates.page == Some(page) ==> user_rates.refusal() is Some,
{
}

/// A lookup of characters by an empty list of ids is refused, so that no
/// request for it exists to be sent.
pub proof fn law_refused_ids_plan_nothing(characters: CharacterSearchParams)
    requires
        characters.ids is Some,
        characters.ids->0@.len() == 0,
    ensures
        characters.refusal() is Some,
{
}

} // verus!
