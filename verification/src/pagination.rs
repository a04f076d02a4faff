//! A search as a sequence of records, fetched a page at a time.
//!
//! A [`Paginator`] is the cursor of one walk over a search. It never
//! fetches by itself: [`Paginator::poll`] hands out the next record, or the
//! request for the next page once the records at hand are used up, and
//! [`Paginator::supply`] takes what that request brought. An empty page
//! ends the walk; a failure is handed out once, after the records that
//! came before it, and ends the walk too.

use crate::client::ShikicrateClient;
use crate::error::{ErrorView, ShikicrateError};
use crate::queries::{
    planned_request, AnimeSearchParams, CharacterSearchParams, MangaSearchParams,
    PeopleSearchParams, QueryRequest, RequestView, Search, UserRateSearchParams,
};
use vstd::prelude::*;
use vstd::string::StringExecFns;

verus! {

/// What a paginator asks of its caller.
pub enum PageStep<T> {
    /// The next element of the sequence.
    Yield(Result<T, ShikicrateError>),
    /// Send this request and supply the page it brings.
    Fetch(QueryRequest),
    /// The sequence has ended.
    Done,
}

/// The mathematical value of a [`PageStep`].
pub enum StepView<T> {
    Yield(Result<T, ErrorView>),
    Fetch(RequestView),
    Done,
}

impl<T> View for PageStep<T> {
    type V = StepView<T>;

    open spec fn view(&self) -> StepView<T> {
        match *self {
            PageStep::Yield(Ok(record)) => StepView::Yield(Ok(record)),
            PageStep::Yield(Err(error)) => StepView::Yield(Err(error@)),
            PageStep::Fetch(request) => StepView::Fetch(request@),
            PageStep::Done => StepView::Done,
        }
    }
}

/// How a walk goes on once the records at hand are handed out.
enum Outlook {
    /// With the next page.
    Open,
    /// With this failure, and then no further.
    Failing(ShikicrateError),
    /// No further.
    Closed,
}

/// How a walk goes on once the records at hand are handed out: with the
/// next page, with a failure and then no further, or no further.
pub enum OutlookView {
    Open,
    Failing(ErrorView),
    Closed,
}

impl View for Outlook {
    type V = OutlookView;

    closed spec fn view(&self) -> OutlookView {
        match *self {
            Outlook::Open => OutlookView::Open,
            Outlook::Failing(error) => OutlookView::Failing(error@),
            Outlook::Closed => OutlookView::Closed,
        }
    }
}

/// The cursor of one walk over a search `S`, whose records are of type `T`.
pub struct Paginator<S, T> {
    url: String,
    params: S,
    next_page: i32,
    stack: Vec<T>,
    outlook: Outlook,
}

/// The mathematical value of a [`Paginator`].
pub struct PaginatorView<S, T> {
    /// The address of the service.
    pub url: Seq<char>,
    /// The search, as the walk was started with it.
    pub params: S,
    /// The number of the page that the next request asks for.
    pub next_page: i32,
    /// The records at hand, next first.
    pub pending: Seq<T>,
    /// How the walk goes on after them.
    pub outlook: OutlookView,
}

/// The records of a stack from its top down.
pub open spec fn top_down<T>(stack: Seq<T>) -> Seq<T> {
    Seq::new(stack.len(), |i: int| stack[stack.len() - 1 - i])
}

impl<S, T> View for Paginator<S, T> {
    type V = PaginatorView<S, T>;

    closed spec fn view(&self) -> PaginatorView<S, T> {
        PaginatorView {
            url: self.url@,
            params: self.params,
            next_page: self.next_page,
            pending: top_down(self.stack@),
            outlook: self.outlook@,
        }
    }
}

/// What was supplied, as a mathematical value.
pub open spec fn page_view<T>(page: Result<Vec<T>, ShikicrateError>) -> Result<Seq<T>, ErrorView> {
    match page {
        Ok(records) => Ok(records@),
        Err(error) => Err(error@),
    }
}

/// A walk that has not begun: it starts on the page the search names, or
/// on the first, and has ended already where the search has no pages.
pub open spec fn fresh<S: Search, T>(url: Seq<char>, params: S) -> PaginatorView<S, T> {
    PaginatorView {
        url,
        params,
        next_page: match params.start_page() {
            Some(page) => page,
            None => 1,
        },
        pending: Seq::empty(),
        outlook: if params.pageable() {
            OutlookView::Open
        } else {
            OutlookView::Closed
        },
    }
}

impl<S: Search, T> PaginatorView<S, T> {
    /// The search for the page that comes next.
    pub open spec fn upcoming(self) -> S {
        self.params.on_page(self.next_page)
    }

    /// What a demand brings, and the state it leaves. A record at hand is
    /// handed out. With none at hand, a pending failure is handed out and
    /// the walk closes; a closed walk is done; an open walk asks for the
    /// next page, unless the search for that page is refused, which is
    /// handed out as a failure and closes the walk.
    pub open spec fn polled(self) -> (StepView<T>, PaginatorView<S, T>) {
        if self.pending.len() > 0 {
            (
                StepView::Yield(Ok(self.pending[0])),
                PaginatorView { pending: self.pending.drop_first(), ..self },
            )
        } else {
            match self.outlook {
                OutlookView::Failing(error) => (
                    StepView::Yield(Err(error)),
                    PaginatorView { outlook: OutlookView::Closed, ..self },
                ),
                OutlookView::Closed => (StepView::Done, self),
                OutlookView::Open => match self.upcoming().refusal() {
                    Some(reason) => (
                        StepView::Yield(Err(ErrorView::Validation(reason))),
                        PaginatorView { outlook: OutlookView::Closed, ..self },
                    ),
                    None => (StepView::Fetch(planned_request(self.upcoming(), self.url)), self),
                },
            }
        }
    }

    /// The state that a supplied page leaves. A walk that is not open takes
    /// nothing. An open walk closes on an empty page; it keeps a failure to
    /// hand out last; and it puts the records of any other page behind the
    /// records at hand and moves on by one page, or closes where no higher
    /// page number exists.
    pub open spec fn supplied(self, page: Result<Seq<T>, ErrorView>) -> PaginatorView<S, T> {
        if !(self.outlook is Open) {
            self
        } else {
            match page {
                Err(error) => PaginatorView { outlook: OutlookView::Failing(error), ..self },
                Ok(records) => if records.len() == 0 {
                    PaginatorView { outlook: OutlookView::Closed, ..self }
                } else if self.next_page == i32::MAX {
                    PaginatorView {
                        pending: self.pending + records,
                        outlook: OutlookView::Closed,
                        ..self
                    }
                } else {
                    PaginatorView {
                        pending: self.pending + records,
                        next_page: (self.next_page + 1) as i32,
                        ..self
                    }
                },
            }
        }
    }
}

/// Putting the records of a page, last first, under a stack puts them
/// behind what the stack holds.
proof fn lemma_top_down_of_page_under_stack<T>(stack: Seq<T>, flipped: Seq<T>, page: Seq<T>)
    requires
        flipped == top_down(page),
    ensures
        top_down(flipped + stack) == top_down(stack) + page,
{
    assert(top_down(flipped + stack) =~= top_down(stack) + page);
}

impl<S: Search, T> Paginator<S, T> {
    /// Starts a walk over a search of the service at `url`.
    pub fn new(url: &str, params: S) -> (paginator: Paginator<S, T>)
        ensures
            paginator@ == fresh::<S, T>(url@, params),
    {
        let next_page = match params.page() {
            Some(page) => page,
            None => 1,
        };
        let outlook = if params.is_pageable() {
            Outlook::Open
        } else {
            Outlook::Closed
        };
        let stack: Vec<T> = Vec::new();
        assert(top_down(stack@) =~= Seq::empty());
        Paginator { url: String::from_str(url), params, next_page, stack, outlook }
    }

    /// The number of the page that the next request asks for.
    pub fn next_page(&self) -> (page: i32)
        ensures
            page == self@.next_page,
    {
        self.next_page
    }

    /// Demands the next step of the walk.
    pub fn poll(&mut self) -> (step: PageStep<T>)
        ensures
            (step@, final(self)@) == old(self)@.polled(),
    {
        if self.stack.len() > 0 {
            let ghost before = self.stack@;
            let record = self.stack.pop().unwrap();
            assert(top_down(self.stack@) =~= top_down(before).drop_first());
            return PageStep::Yield(Ok(record));
        }
        assert(top_down(self.stack@) =~= Seq::empty());
        let mut outlook = Outlook::Closed;
        core::mem::swap(&mut self.outlook, &mut outlook);
        match outlook {
            Outlook::Failing(error) => PageStep::Yield(Err(error)),
            Outlook::Closed => PageStep::Done,
            Outlook::Open => {
                let search = self.params.at_page(self.next_page);
                match search.plan(self.url.as_str()) {
                    Err(error) => PageStep::Yield(Err(error)),
                    Ok(request) => {
                        self.outlook = Outlook::Open;
                        PageStep::Fetch(request)
                    },
                }
            },
        }
    }

    /// Supplies what the request for the next page brought.
    pub fn supply(&mut self, page: Result<Vec<T>, ShikicrateError>)
        ensures
            final(self)@ == old(self)@.supplied(page_view(page)),
    {
        match &self.outlook {
            Outlook::Open => {},
            _ => {
                return;
            },
        }
        match page {
            Err(error) => {
                self.outlook = Outlook::Failing(error);
            },
            Ok(records) => {
                if records.len() == 0 {
                    self.outlook = Outlook::Closed;
                } else {
                    let ghost page = records@;
                    let mut rest = records;
                    let mut flipped: Vec<T> = Vec::new();
                    while rest.len() > 0
                        invariant
                            rest@.len() + flipped@.len() == page.len(),
                            rest@ == page.take(rest@.len() as int),
                            forall|i: int|
                                0 <= i < flipped@.len() ==> flipped@[i] == page[page.len() - 1 - i],
                        decreases rest@.len(),
                    {
                        let record = rest.pop().unwrap();
                        flipped.push(record);
                    }
                    assert(flipped@ =~= top_down(page));
                    proof {
                        lemma_top_down_of_page_under_stack(self.stack@, flipped@, page);
                    }
                    flipped.append(&mut self.stack);
                    self.stack = flipped;
                    if self.next_page == i32::MAX {
                        self.outlook = Outlook::Closed;
                    } else {
                        self.next_page = self.next_page + 1;
                    }
                }
            },
        }
    }
}

impl ShikicrateClient {
    /// Starts a walk over an anime search, from the page the search names
    /// or from the first.
    pub fn animes_paginated<T>(&self, params: AnimeSearchParams) -> (paginator: Paginator<
        AnimeSearchParams,
        T,
    >)
        ensures
            paginator@ == fresh::<AnimeSearchParams, T>(self@.base_url, params),
    {
        Paginator::new(self.base_url(), params)
    }

    /// Starts a walk over a manga search, from the page the search names
    /// or from the first.
    pub fn mangas_paginated<T>(&self, params: MangaSearchParams) -> (paginator: Paginator<
        MangaSearchParams,
        T,
    >)
        ensures
            paginator@ == fresh::<MangaSearchParams, T>(self@.base_url, params),
    {
        Paginator::new(self.base_url(), params)
    }

    /// Starts a walk over a search for characters, from the page the
    /// search names or from the first. A lookup by ids has no pages: its
    /// walk has ended before it begins.
    pub fn characters_paginated<T>(&self, params: CharacterSearchParams) -> (paginator: Paginator<
        CharacterSearchParams,
        T,
    >)
        ensures
            paginator@ == fresh::<CharacterSearchParams, T>(self@.base_url, params),
    {
        Paginator::new(self.base_url(), params)
    }

    /// Starts a walk over a search for people. The service has no pages of
    /// people: the walk has ended before it begins.
    pub fn people_paginated<T>(&self, params: PeopleSearchParams) -> (paginator: Paginator<
        PeopleSearchParams,
        T,
    >)
        ensures
            paginator@ == fresh::<PeopleSearchParams, T>(self@.base_url, params),
    {
        Paginator::new(self.base_url(), params)
    }

    /// Starts a walk over a search for user rates, from the page the search
    /// names or from the first.
    pub fn user_rates_paginated<T>(&self, params: UserRateSearchParams) -> (paginator: Paginator<
        UserRateSearchParams,
        T,
    >)
        ensures
            paginator@ == fresh::<UserRateSearchParams, T>(self@.base_url, params),
    {
        Paginator::new(self.base_url(), params)
    }
}

/// How far a walk is from its end when no page is to come.
pub open spec fn outlook_rank(outlook: OutlookView) -> nat {
    match outlook {
        OutlookView::Closed => 0,
        _ => 1,
    }
}

/// Everything a walk hands out from a state on, when each request it makes
/// is answered by the next of `pages`. A request that finds no page left to
/// answer it ends the account.
pub open spec fn drained<S: Search, T>(
    state: PaginatorView<S, T>,
    pages: Seq<Result<Seq<T>, ErrorView>>,
) -> Seq<Result<T, ErrorView>>
    decreases pages.len(), state.pending.len(), outlook_rank(state.outlook),
{
    let (step, next) = state.polled();
    match step {
        StepView::Yield(item) => seq![item] + drained(next, pages),
        StepView::Done => Seq::empty(),
        StepView::Fetch(_) => if pages.len() == 0 {
            Seq::empty()
        } else {
            drained(state.supplied(pages[0]), pages.drop_first())
        },
    }
}

/// The page numbers that a walk asks for from a state on, when each request
/// it makes is answered by the next of `pages`.
pub open spec fn requested<S: Search, T>(
    state: PaginatorView<S, T>,
    pages: Seq<Result<Seq<T>, ErrorView>>,
) -> Seq<int>
    decreases pages.len(), state.pending.len(), outlook_rank(state.outlook),
{
    let (step, next) = state.polled();
    match step {
        StepView::Yield(_) => requested(next, pages),
        StepView::Done => Seq::empty(),
        StepView::Fetch(_) => if pages.len() == 0 {
            seq![state.next_page as int]
        } else {
            seq![state.next_page as int] + requested(state.supplied(pages[0]), pages.drop_first())
        },
    }
}

/// The records of a page as elements of the sequence.
pub open spec fn handed_out<T>(records: Seq<T>) -> Seq<Result<T, ErrorView>> {
    Seq::new(records.len(), |i: int| Ok::<T, ErrorView>(records[i]))
}

/// The pages laid end to end: the records of each page in order, up to the
/// first page that is empty, which ends the sequence, or that failed, whose
/// failure is the last element.
pub open spec fn flattened<T>(pages: Seq<Result<Seq<T>, ErrorView>>) -> Seq<Result<T, ErrorView>>
    decreases pages.len(),
{
    if pages.len() == 0 {
        Seq::empty()
    } else {
        match pages[0] {
            Err(error) => seq![Err(error)],
            Ok(records) => if records.len() == 0 {
                Seq::empty()
            } else {
                handed_out(records) + flattened(pages.drop_first())
            },
        }
    }
}

/// The number of requests that a walk makes when they are answered by
/// `pages`: one for each page up to the first that is empty or failed, and
/// one more, which stays unanswered, where every page brought records.
pub open spec fn requests_for<T>(pages: Seq<Result<Seq<T>, ErrorView>>) -> nat
    decreases pages.len(),
{
    if pages.len() == 0 {
        1
    } else {
        match pages[0] {
            Ok(records) if records.len() > 0 => 1 + requests_for(pages.drop_first()),
            _ => 1,
        }
    }
}

/// Whether a walk from `state` can ask for each of the next `count` pages:
/// their page numbers exist, and none of the searches for them is refused.
pub open spec fn can_walk<S: Search, T>(state: PaginatorView<S, T>, count: nat) -> bool {
    &&& state.next_page + count <= i32::MAX + 1
    &&& forall|page: i32|
        state.next_page <= page < state.next_page + count ==> (#[trigger] state.params.on_page(
            page,
        )).refusal() is None
}

/// The records at hand are handed out first, in order, whatever follows.
pub proof fn lemma_pending_comes_first<S: Search, T>(
    state: PaginatorView<S, T>,
    pages: Seq<Result<Seq<T>, ErrorView>>,
)
    ensures
        drained(state, pages) == handed_out(state.pending) + drained(
            PaginatorView { pending: Seq::empty(), ..state },
            pages,
        ),
        requested(state, pages) == requested(
            PaginatorView { pending: Seq::empty(), ..state },
            pages,
        ),
    decreases state.pending.len(),
{
    let emptied = PaginatorView { pending: Seq::empty(), ..state };
    if state.pending.len() == 0 {
        assert(state.pending =~= Seq::empty());
        assert(emptied == state);
        assert(handed_out(state.pending) + drained(emptied, pages) =~= drained(state, pages));
    } else {
        let next = state.polled().1;
        lemma_pending_comes_first(next, pages);
        assert(PaginatorView { pending: Seq::empty(), ..next } == emptied);
        assert(seq![Ok::<T, ErrorView>(state.pending[0])] + handed_out(next.pending)
            =~= handed_out(state.pending));
        assert(drained(state, pages) =~= handed_out(state.pending) + drained(emptied, pages));
    }
}

/// A walk hands out the pages laid end to end: the records of every page
/// in the order in which they came, one at a time, until a page is empty,
/// which ends the walk without an error, or a page failed, whose failure is
/// handed out once, as the last element.
pub proof fn law_pages_come_out_in_order<S: Search, T>(
    state: PaginatorView<S, T>,
    pages: Seq<Result<Seq<T>, ErrorView>>,
)
    requires
        state.outlook is Open,
        can_walk(state, requests_for(pages)),
    ensures
        drained(state, pages) == handed_out(state.pending) + flattened(pages),
    decreases pages.len(),
{
    let emptied = PaginatorView { pending: Seq::empty(), ..state };
    lemma_pending_comes_first(state, pages);
    assert(emptied.upcoming() == state.params.on_page(state.next_page));
    assert(emptied.upcoming().refusal() is None);
    assert(emptied.polled().0 is Fetch);
    if pages.len() > 0 {
        let after = emptied.supplied(pages[0]);
        let rest = pages.drop_first();
        assert(drained(emptied, pages) == drained(after, rest));
        match pages[0] {
            Err(error) => {
                let closed = after.polled().1;
                assert(after.polled().0 == StepView::<T>::Yield(Err(error)));
                assert(closed.polled().0 is Done);
                assert(drained(closed, rest) =~= Seq::empty());
                assert(drained(after, rest) =~= seq![Err::<T, ErrorView>(error)]);
            },
            Ok(records) => {
                if records.len() == 0 {
                    assert(after.polled().0 is Done);
                    assert(drained(after, rest) =~= Seq::empty());
                } else {
                    assert(after.pending =~= records);
                    assert(can_walk(after, requests_for(rest)));
                    law_pages_come_out_in_order(after, rest);
                }
            },
        }
    }
}

/// The page number moves forward by exactly one with every page that
/// brought records, and never otherwise: a walk asks for the page it
/// started on, then for the next, and so on, and never for a page twice.
pub proof fn law_page_numbers_count_up<S: Search, T>(
    state: PaginatorView<S, T>,
    pages: Seq<Result<Seq<T>, ErrorView>>,
)
    requires
        state.outlook is Open,
        can_walk(state, requests_for(pages)),
    ensures
        requested(state, pages).len() == requests_for(pages),
        forall|i: int|
            0 <= i < requests_for(pages) ==> #[trigger] requested(state, pages)[i]
                == state.next_page + i,
    decreases pages.len(),
{
    let emptied = PaginatorView { pending: Seq::empty(), ..state };
    lemma_pending_comes_first(state, pages);
    assert(emptied.upcoming() == state.params.on_page(state.next_page));
    assert(emptied.upcoming().refusal() is None);
    assert(emptied.polled().0 is Fetch);
    if pages.len() > 0 {
        let after = emptied.supplied(pages[0]);
        let rest = pages.drop_first();
        match pages[0] {
            Err(error) => {
                let closed = after.polled().1;
                assert(closed.polled().0 is Done);
                assert(requested(closed, rest) =~= Seq::empty());
                assert(requested(after, rest) =~= Seq::empty());
            },
            Ok(records) => {
                if records.len() == 0 {
                    assert(after.polled().0 is Done);
                    assert(requested(after, rest) =~= Seq::empty());
                } else {
                    assert(can_walk(after, requests_for(rest)));
                    law_page_numbers_count_up(after, rest);
                    assert forall|i: int| 0 <= i < requests_for(pages) implies #[trigger] requested(
                        state,
                        pages,
                    )[i] == state.next_page + i by {
                        if i > 0 {
                            assert(requested(state, pages)[i] == requested(after, rest)[i - 1]);
                        }
                    }
                }
            },
        }
    }
}

/// The page number never goes back and never stays where a page brought
/// records: a supplied page moves it forward by exactly one where an open
/// walk below the last page number took records, and leaves it alone in
/// every other case; a demand leaves it alone always.
pub proof fn law_page_number_never_goes_back<S: Search, T>(
    state: PaginatorView<S, T>,
    page: Result<Seq<T>, ErrorView>,
)
    ensures
        state.polled().1.next_page == state.next_page,
        state.supplied(page).next_page == state.next_page || state.supplied(page).next_page
            == state.next_page + 1,
        state.supplied(page).next_page == state.next_page + 1 <==> {
            &&& state.outlook is Open
            &&& page matches Ok(records)
            &&& records.len() > 0
            &&& state.next_page < i32::MAX
        },
{
}

/// A walk that is over stays over: once a demand is answered with the end,
/// every later demand is, and no page that is supplied reopens the walk.
pub proof fn law_finished_walk_stays_finished<S: Search, T>(
    state: PaginatorView<S, T>,
    page: Result<Seq<T>, ErrorView>,
)
    requires
        state.polled().0 is Done,
    ensures
        state.polled().1 == state,
        state.supplied(page) == state,
{
}

/// A search without pages is an empty sequence: the walk is done at the
/// first demand and asks for nothing.
pub proof fn law_unpageable_search_is_empty<S: Search, T>(
    url: Seq<char>,
    params: S,
    pages: Seq<Result<Seq<T>, ErrorView>>,
)
    requires
        !params.pageable(),
    ensures
        fresh::<S, T>(url, params).polled().0 is Done,
        drained(fresh::<S, T>(url, params), pages) == Seq::<Result<T, ErrorView>>::empty(),
        requested(fresh::<S, T>(url, params), pages) == Seq::<int>::empty(),
{
    let state = fresh::<S, T>(url, params);
    assert(state.pending.len() == 0);
}

/// A lookup of characters by ids and a search for people have no pages.
pub proof fn law_ids_and_people_have_no_pages(
    characters: CharacterSearchParams,
    people: PeopleSearchParams,
)
    ensures
        characters.ids is Some ==> !characters.pageable(),
        !people.pageable(),
{
}

} // verus!
