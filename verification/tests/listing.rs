use lambda::domain::entities::Feedback;
use lambda::domain::value_objects::{FeedbackId, Timestamp};
use lambda::infrastructure::repositories_impl::{
    FeedbackRepositoryImpl, Listing, ListingStep, Page, QueryRequest,
};

fn record(n: u128) -> Feedback {
    Feedback {
        id: FeedbackId(n),
        created_at: Timestamp(n as i64),
        log_group: "/svc/a".to_string(),
        message: format!("line {}", n),
        needs_notification: n % 2 == 0,
        reason: None,
    }
}

fn repo() -> FeedbackRepositoryImpl {
    FeedbackRepositoryImpl { table_name: "feedback".to_string() }
}

fn page(items: Option<Vec<u128>>, cursor: Option<&str>) -> Page<String> {
    Page {
        items: items.map(|ids| ids.into_iter().map(record).collect()),
        last_evaluated_key: cursor.map(|c| c.to_string()),
    }
}

/// Lists against a store that answers from `answers`; gives the outcome and
/// the cursors the store was asked with.
fn list(answers: Vec<Result<Page<String>, String>>) -> (Result<Vec<Feedback>, String>, Vec<Option<String>>) {
    let (mut listing, mut request): (Listing, QueryRequest<String>) =
        repo().list_feedback_by_log_group("/svc/a");
    let mut asked = vec![];
    let mut answers = answers.into_iter();
    loop {
        assert_eq!(request.table_name, "feedback");
        assert_eq!(request.index_name, "log_group_index");
        assert_eq!(request.key_condition_expression, "log_group = :log_group");
        assert_eq!(request.placeholder, ":log_group");
        assert_eq!(request.log_group, "/svc/a");
        asked.push(request.exclusive_start_key.clone());
        let answer = answers.next().expect("the store was asked once too often");
        match listing.absorb(answer) {
            ListingStep::Fetch(next, next_request) => {
                listing = next;
                request = next_request;
            }
            ListingStep::Done(outcome) => {
                assert!(answers.next().is_none(), "the listing ended too early");
                return (outcome, asked);
            }
        }
    }
}

#[test]
fn three_pages_of_two_records_give_six_in_fetch_order() {
    let (outcome, asked) = list(vec![
        Ok(page(Some(vec![1, 2]), Some("page2"))),
        Ok(page(Some(vec![3, 4]), Some("page3"))),
        Ok(page(Some(vec![5, 6]), None)),
    ]);
    assert_eq!(outcome, Ok((1..=6).map(record).collect::<Vec<_>>()));
    assert_eq!(asked, vec![None, Some("page2".to_string()), Some("page3".to_string())]);
}

#[test]
fn a_failure_on_page_two_gives_the_error_and_no_record() {
    let (outcome, asked) = list(vec![
        Ok(page(Some(vec![1, 2]), Some("page2"))),
        Err("throttled".to_string()),
    ]);
    assert_eq!(outcome, Err("throttled".to_string()));
    assert_eq!(asked, vec![None, Some("page2".to_string())]);
}

#[test]
fn a_failure_on_the_first_page() {
    let (outcome, asked) = list(vec![Err("down".to_string())]);
    assert_eq!(outcome, Err("down".to_string()));
    assert_eq!(asked, vec![None]);
}

#[test]
fn a_single_page_and_an_empty_store() {
    let (outcome, _) = list(vec![Ok(page(Some(vec![9, 8, 7]), None))]);
    assert_eq!(outcome, Ok(vec![record(9), record(8), record(7)]));
    let (outcome, _) = list(vec![Ok(page(Some(vec![]), None))]);
    assert_eq!(outcome, Ok(vec![]));
}

#[test]
fn the_cursor_is_followed_whatever_a_page_holds() {
    let (outcome, asked) = list(vec![
        Ok(page(None, Some("c1"))),
        Ok(page(Some(vec![1]), None)),
    ]);
    assert_eq!(outcome, Ok(vec![record(1)]));
    assert_eq!(asked, vec![None, Some("c1".to_string())]);
    let (outcome, asked) = list(vec![
        Ok(page(Some(vec![1]), Some("page2"))),
        Ok(page(None, Some("page3"))),
        Ok(page(Some(vec![2]), None)),
    ]);
    assert_eq!(outcome, Ok(vec![record(1), record(2)]));
    assert_eq!(asked.len(), 3);
}

#[test]
fn a_page_without_an_item_list_and_without_a_cursor_ends_the_listing() {
    let (outcome, asked) = list(vec![Ok(page(Some(vec![1]), Some("page2"))), Ok(page(None, None))]);
    assert_eq!(outcome, Ok(vec![record(1)]));
    assert_eq!(asked.len(), 2);
}

#[test]
fn an_empty_page_with_a_cursor_goes_on() {
    let (outcome, asked) = list(vec![
        Ok(page(Some(vec![]), Some("page2"))),
        Ok(page(Some(vec![1]), None)),
    ]);
    assert_eq!(outcome, Ok(vec![record(1)]));
    assert_eq!(asked, vec![None, Some("page2".to_string())]);
}

#[test]
fn a_record_is_appended_as_it_is() {
    let request = repo().add_feedback(record(3));
    assert_eq!(request.table_name, "feedback");
    assert_eq!(request.item, record(3));
    let again = repo().add_feedback(record(3));
    assert_eq!(again, request);
}
