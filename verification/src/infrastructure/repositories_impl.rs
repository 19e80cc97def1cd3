//! The feedback store: what is asked of it, and how the pages of a listing
//! are put together. The store itself is reached by the caller; the cursor it
//! hands out is opaque here and goes back to it unchanged.

use crate::domain::entities::{feedback_view, Feedback, FeedbackView};
use vstd::prelude::*;

verus! {

/// The name of the index that finds feedback by log group.
pub const LOG_GROUP_INDEX: &'static str = "log_group_index";

/// The condition of a listing: the log group is the one asked for.
pub const KEY_CONDITION: &'static str = "log_group = :log_group";

/// The placeholder in the condition that stands for the log group.
pub const LOG_GROUP_PLACEHOLDER: &'static str = ":log_group";

/// The feedback store, known by the name of its table.
#[derive(Debug, Clone, PartialEq)]
pub struct FeedbackRepositoryImpl {
    pub table_name: String,
}

/// The request that appends one record to the store.
#[derive(Debug, Clone, PartialEq)]
pub struct PutRequest {
    pub table_name: String,
    pub item: Feedback,
}

/// The request for one page of the feedback of a log group. `C` is the
/// store's cursor.
#[derive(Debug, Clone, PartialEq)]
pub struct QueryRequest<C> {
    pub table_name: String,
    pub index_name: String,
    pub key_condition_expression: String,
    pub placeholder: String,
    pub log_group: String,
    pub exclusive_start_key: Option<C>,
}

pub struct QueryRequestView<C> {
    pub table_name: Seq<char>,
    pub index_name: Seq<char>,
    pub key_condition_expression: Seq<char>,
    pub placeholder: Seq<char>,
    pub log_group: Seq<char>,
    pub exclusive_start_key: Option<C>,
}

impl<C> View for QueryRequest<C> {
    type V = QueryRequestView<C>;

    open spec fn view(&self) -> QueryRequestView<C> {
        QueryRequestView {
            table_name: self.table_name@,
            index_name: self.index_name@,
            key_condition_expression: self.key_condition_expression@,
            placeholder: self.placeholder@,
            log_group: self.log_group@,
            exclusive_start_key: self.exclusive_start_key,
        }
    }
}

/// The request for the page of `log_group` that starts behind `cursor`, or
/// for the first page where there is no cursor.
pub open spec fn query_request<C>(
    table_name: Seq<char>,
    log_group: Seq<char>,
    cursor: Option<C>,
) -> QueryRequestView<C> {
    QueryRequestView {
        table_name,
        index_name: LOG_GROUP_INDEX@,
        key_condition_expression: KEY_CONDITION@,
        placeholder: LOG_GROUP_PLACEHOLDER@,
        log_group,
        exclusive_start_key: cursor,
    }
}

/// One page of a listing as the store answers it.
#[derive(Debug, Clone, PartialEq)]
pub struct Page<C> {
    pub items: Option<Vec<Feedback>>,
    pub last_evaluated_key: Option<C>,
}

pub struct PageView<C> {
    pub items: Option<Seq<FeedbackView>>,
    pub last_evaluated_key: Option<C>,
}

impl<C> View for Page<C> {
    type V = PageView<C>;

    open spec fn view(&self) -> PageView<C> {
        PageView {
            items: match self.items {
                Some(items) => Some(feedback_view(items@)),
                None => None,
            },
            last_evaluated_key: self.last_evaluated_key,
        }
    }
}

impl<C> PageView<C> {
    /// The records of the page; none where the page has no item list.
    pub open spec fn records(self) -> Seq<FeedbackView> {
        match self.items {
            Some(items) => items,
            None => Seq::empty(),
        }
    }

    /// Whether another page follows: the page has a cursor, whatever else
    /// it holds.
    pub open spec fn continues(self) -> bool {
        self.last_evaluated_key is Some
    }
}

/// A listing that is under way: the records of the pages fetched so far.
#[derive(Debug, Clone, PartialEq)]
pub struct Listing {
    pub table_name: String,
    pub log_group: String,
    pub results: Vec<Feedback>,
}

pub struct ListingView {
    pub table_name: Seq<char>,
    pub log_group: Seq<char>,
    pub results: Seq<FeedbackView>,
}

impl View for Listing {
    type V = ListingView;

    open spec fn view(&self) -> ListingView {
        ListingView {
            table_name: self.table_name@,
            log_group: self.log_group@,
            results: feedback_view(self.results@),
        }
    }
}

impl ListingView {
    /// The listing with the records of one more page.
    pub open spec fn with_page<C>(self, page: PageView<C>) -> ListingView {
        ListingView { results: self.results + page.records(), ..self }
    }
}

/// What a listing needs next.
#[derive(Debug, PartialEq)]
pub enum ListingStep<C, E> {
    /// Another page: the listing so far and the request to make.
    Fetch(Listing, QueryRequest<C>),
    /// Nothing: the listing is over, with all records or with the error that
    /// ended it.
    Done(Result<Vec<Feedback>, E>),
}

/// What a listing that holds `results` does with the answer of the store to
/// its last request. `None`: it goes on, with the records of the page added
/// and the cursor of the page in its next request. Otherwise it is over: with
/// all records, the page's included, or with the error in place of any record.
pub open spec fn listing_end<C, E>(
    results: Seq<FeedbackView>,
    answer: Result<PageView<C>, E>,
) -> Option<Result<Seq<FeedbackView>, E>> {
    match answer {
        Err(e) => Some(Err(e)),
        Ok(page) => if page.continues() {
            None
        } else {
            Some(Ok(results + page.records()))
        },
    }
}

/// The outcome of a listing that holds `results` and is given `answers`, one
/// after the other, as long as it asks for more; `None` where it still asks
/// for more after the last of them.
pub open spec fn listing_run<C, E>(
    results: Seq<FeedbackView>,
    answers: Seq<Result<PageView<C>, E>>,
) -> Option<Result<Seq<FeedbackView>, E>>
    decreases answers.len(),
{
    if answers.len() == 0 {
        None
    } else {
        match listing_end(results, answers[0]) {
            Some(outcome) => Some(outcome),
            None => listing_run(results + answers[0]->Ok_0.records(), answers.drop_first()),
        }
    }
}

/// The records of `pages`, one page after the other.
pub open spec fn all_records<C>(pages: Seq<PageView<C>>) -> Seq<FeedbackView>
    decreases pages.len(),
{
    if pages.len() == 0 {
        Seq::empty()
    } else {
        pages[0].records() + all_records(pages.drop_first())
    }
}

/// The answers that hand out `pages`, each of them a success.
pub open spec fn answered<C, E>(pages: Seq<PageView<C>>) -> Seq<Result<PageView<C>, E>> {
    Seq::new(pages.len(), |i: int| Ok(pages[i]))
}

/// A listing follows the cursors to the end. Given pages that each announce
/// another one and a last page that does not, it ends with the records of all
/// of them in the order in which they were fetched.
pub proof fn lemma_listing_collects_all_pages<C, E>(
    results: Seq<FeedbackView>,
    pages: Seq<PageView<C>>,
    last: PageView<C>,
)
    requires
        forall|i: int| 0 <= i < pages.len() ==> (#[trigger] pages[i]).continues(),
        !last.continues(),
    ensures
        listing_run::<C, E>(results, answered(pages.push(last))) == Some(
            Ok::<_, E>(results + all_records(pages) + last.records()),
        ),
    decreases pages.len(),
{
    let answers = answered::<C, E>(pages.push(last));
    if pages.len() == 0 {
        assert(answers[0] == Ok::<_, E>(last));
        assert(results + all_records(pages) + last.records() =~= results + last.records());
    } else {
        assert(answers[0] == Ok::<_, E>(pages[0]));
        assert(pages[0].continues());
        assert(answers.drop_first() =~= answered::<C, E>(pages.drop_first().push(last)));
        assert forall|i: int| 0 <= i < pages.drop_first().len() implies (
        #[trigger] pages.drop_first()[i]).continues() by {
            assert(pages.drop_first()[i] == pages[i + 1]);
        }
        lemma_listing_collects_all_pages::<C, E>(
            results + pages[0].records(),
            pages.drop_first(),
            last,
        );
        assert(results + pages[0].records() + all_records(pages.drop_first()) + last.records()
            =~= results + all_records(pages) + last.records());
    }
}

/// A failure ends a listing with nothing but the error. Given pages that each
/// announce another one and then a failure, the listing ends with that error,
/// and no record of the pages fetched before is handed out.
pub proof fn lemma_listing_fails_as_a_whole<C, E>(
    results: Seq<FeedbackView>,
    pages: Seq<PageView<C>>,
    error: E,
)
    requires
        forall|i: int| 0 <= i < pages.len() ==> (#[trigger] pages[i]).continues(),
    ensures
        listing_run::<C, E>(results, answered(pages).push(Err(error))) == Some(
            Err::<Seq<FeedbackView>, E>(error),
        ),
    decreases pages.len(),
{
    let answers = answered::<C, E>(pages).push(Err(error));
    if pages.len() == 0 {
        assert(answers[0] == Err::<PageView<C>, E>(error));
    } else {
        assert(answers[0] == Ok::<_, E>(pages[0]));
        assert(pages[0].continues());
        assert(answers.drop_first() =~= answered::<C, E>(pages.drop_first()).push(Err(error)));
        assert forall|i: int| 0 <= i < pages.drop_first().len() implies (
        #[trigger] pages.drop_first()[i]).continues() by {
            assert(pages.drop_first()[i] == pages[i + 1]);
        }
        lemma_listing_fails_as_a_whole::<C, E>(
            results + pages[0].records(),
            pages.drop_first(),
            error,
        );
    }
}

impl FeedbackRepositoryImpl {
    /// The request that appends `feedback` to the store. Nothing is looked up
    /// first: a record submitted twice is stored twice.
    pub fn add_feedback(&self, feedback: Feedback) -> (request: PutRequest)
        ensures
            request.table_name@ == self.table_name@,
            request.item == feedback,
    {
        PutRequest { table_name: self.table_name.clone(), item: feedback }
    }

    fn query<C>(table_name: &str, log_group: &str, cursor: Option<C>) -> (request: QueryRequest<C>)
        ensures
            request@ == query_request(table_name@, log_group@, cursor),
    {
        QueryRequest {
            table_name: table_name.to_owned(),
            index_name: String::from_str(LOG_GROUP_INDEX),
            key_condition_expression: String::from_str(KEY_CONDITION),
            placeholder: String::from_str(LOG_GROUP_PLACEHOLDER),
            log_group: log_group.to_owned(),
            exclusive_start_key: cursor,
        }
    }

    /// Begins to list the feedback of `log_group`: an empty listing and the
    /// request for the first page.
    pub fn list_feedback_by_log_group<C>(&self, log_group: &str) -> (begun: (
        Listing,
        QueryRequest<C>,
    ))
        ensures
            begun.0@ == (ListingView {
                table_name: self.table_name@,
                log_group: log_group@,
                results: Seq::empty(),
            }),
            begun.1@ == query_request(self.table_name@, log_group@, None::<C>),
    {
        let results: Vec<Feedback> = Vec::new();
        assert(feedback_view(results@) =~= Seq::empty());
        (
            Listing {
                table_name: self.table_name.clone(),
                log_group: log_group.to_owned(),
                results,
            },
            FeedbackRepositoryImpl::query(self.table_name.as_str(), log_group, None),
        )
    }
}

impl Listing {
    /// Takes the answer of the store to the last request. The records of a
    /// page are added. A page that has a cursor has the next page asked for
    /// with that cursor, whatever the page holds; a page without a cursor ends
    /// the listing. A failure ends the listing with the error alone.
    pub fn absorb<C, E>(self, answer: Result<Page<C>, E>) -> (step: ListingStep<C, E>)
        ensures
            match step {
                ListingStep::Fetch(listing, request) => {
                    &&& answer matches Ok(page)
                    &&& listing_end(self@.results, Ok::<_, E>(page@)) is None
                    &&& listing@ == self@.with_page(page@)
                    &&& request@ == query_request(
                        self@.table_name,
                        self@.log_group,
                        page.last_evaluated_key,
                    )
                },
                ListingStep::Done(Ok(results)) => {
                    &&& answer matches Ok(page)
                    &&& listing_end(self@.results, Ok::<_, E>(page@)) == Some(
                        Ok::<_, E>(feedback_view(results@)),
                    )
                },
                ListingStep::Done(Err(e)) => answer == Err::<Page<C>, E>(e),
            },
    {
        let page = match answer {
            Ok(page) => page,
            Err(e) => {
                return ListingStep::Done(Err(e));
            },
        };
        let ghost seen = page@;
        let Listing { table_name, log_group, mut results } = self;
        let ghost before = feedback_view(results@);
        let Page { items, last_evaluated_key } = page;
        match items {
            Some(mut items) => {
                let ghost added = feedback_view(items@);
                results.append(&mut items);
                assert(feedback_view(results@) =~= before + added);
            },
            None => {
                assert(before + seen.records() =~= before);
            },
        }
        match last_evaluated_key {
            Some(key) => {
                let request = FeedbackRepositoryImpl::query(
                    table_name.as_str(),
                    log_group.as_str(),
                    Some(key),
                );
                ListingStep::Fetch(Listing { table_name, log_group, results }, request)
            },
            None => ListingStep::Done(Ok(results)),
        }
    }
}

} // verus!
