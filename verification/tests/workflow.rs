use lambda::application::services::{
    Batch, CollectionService, FeedbackError, NotificationError, NotificationService, Step,
};
use lambda::interface::handlers::respond_to_feedback;
use lambda::interface::status::StatusCode;
use lambda::domain::entities::Feedback;
use lambda::domain::value_objects::{FeedbackId, Timestamp};
use lambda::infrastructure::bedrock;
use lambda::infrastructure::bedrock::{ContentBlock, ConverseOutput, DecisionError, Output};
use lambda::infrastructure::repositories_impl::{FeedbackRepositoryImpl, Page};
use lambda::infrastructure::slack;
use lambda::infrastructure::slack::{
    ApiRequest, DecodeError, PrivateMetadata, RemoteApiError,
};
use lambda::json::Json;

const NOW: &str = "2024-01-01T00:00:00Z";

fn notification() -> NotificationService {
    NotificationService {
        repo: FeedbackRepositoryImpl { table_name: "feedback".to_string() },
        bedrock_client: bedrock::Client { model_id: "model-1".to_string() },
        slack_client: slack::Client { token: "xoxb-token".to_string() },
        slack_channel_id: "C123".to_string(),
    }
}

fn collection() -> CollectionService {
    CollectionService {
        repo: FeedbackRepositoryImpl { table_name: "feedback".to_string() },
        slack_client: slack::Client { token: "xoxb-token".to_string() },
        slack_channel_id: "C123".to_string(),
    }
}

fn record(n: u128, needed: bool) -> Feedback {
    Feedback {
        id: FeedbackId(n),
        created_at: Timestamp(1_700_000_000 + n as i64),
        log_group: "/svc/a".to_string(),
        message: format!("line {}", n),
        needs_notification: needed,
        reason: None,
    }
}

fn verdict(needed: bool) -> ConverseOutput {
    let input = Json::empty_object().with("needs_notification", Json::Bool(needed));
    ConverseOutput { output: Some(Output::Message(vec![ContentBlock::ToolUse(input)])) }
}

/// What the outside answers in a run: the pages of the store, the verdicts of
/// the judgment service, and the answers of the chat platform, each in order.
struct Outside {
    pages: Vec<Result<Page<String>, String>>,
    verdicts: Vec<Result<ConverseOutput, String>>,
    posts: Vec<Result<(bool, String), String>>,
}

/// What a run asked of the outside.
#[derive(Debug, Default, PartialEq)]
struct Asked {
    /// For each request for a page: the place of the line it was made for,
    /// and the cursor it was made with.
    queries: Vec<(usize, Option<String>)>,
    judged: Vec<String>,
    posted: Vec<ApiRequest>,
    failed: Vec<(usize, NotificationError<String>)>,
}

fn run(
    service: &NotificationService,
    log_group: &str,
    messages: &[&str],
    outside: Outside,
) -> (Result<(), NotificationError<String>>, Asked) {
    run_on(service, log_group, messages, outside, false)
}

fn run_on(
    service: &NotificationService,
    log_group: &str,
    messages: &[&str],
    outside: Outside,
    skip_failed_lines: bool,
) -> (Result<(), NotificationError<String>>, Asked) {
    let mut pages = outside.pages.into_iter();
    let mut verdicts = outside.verdicts.into_iter();
    let mut posts = outside.posts.into_iter();
    let mut asked = Asked::default();
    let mut step: Step<String, String> = service.slack_notification(
        log_group.to_string(),
        messages.iter().map(|m| m.to_string()).collect(),
    );
    loop {
        step = match step {
            Step::Query(batch, listing, request) => {
                assert_eq!(request.log_group, log_group);
                asked.queries.push((batch.position, request.exclusive_start_key.clone()));
                service.on_page(batch, listing, pages.next().expect("one page too many"), NOW)
            }
            Step::Converse(batch, request) => {
                asked.judged.push(request.user_content.clone());
                assert!(batch.position < batch.messages.len());
                service.on_verdict(batch, verdicts.next().expect("one verdict too many"))
            }
            Step::Post(batch, request) => {
                asked.posted.push(request);
                assert!(batch.position < batch.messages.len());
                service.on_posted(batch, posts.next().expect("one post too many"))
            }
            Step::Failed(batch, error) => {
                assert!(batch.position < batch.messages.len());
                if skip_failed_lines {
                    asked.failed.push((batch.position, error));
                    service.skip(batch)
                } else {
                    return (Err(error), asked);
                }
            }
            Step::Done => {
                assert!(pages.next().is_none());
                assert!(verdicts.next().is_none());
                assert!(posts.next().is_none());
                return (Ok(()), asked);
            }
        };
    }
}

fn last_page(records: Vec<Feedback>) -> Result<Page<String>, String> {
    Ok(Page { items: Some(records), last_evaluated_key: None })
}

fn posted_ok() -> Result<(bool, String), String> {
    Ok((true, r#"{"ok":true,"ts":"123.45"}"#.to_string()))
}

#[test]
fn one_line_without_feedback_is_alerted() {
    let service = notification();
    let (outcome, asked) = run(
        &service,
        "/svc/a",
        &["OOM killed"],
        Outside {
            pages: vec![last_page(vec![])],
            verdicts: vec![Ok(verdict(true))],
            posts: vec![posted_ok()],
        },
    );
    assert_eq!(outcome, Ok(()));
    assert_eq!(asked.queries, vec![(0, None)]);
    assert_eq!(
        asked.judged,
        vec![format!(
            r#"<feedback>[]</feedback><target_log>{{"message":"OOM killed","timestamp":"{}"}}</target_log>"#,
            NOW
        )]
    );
    assert_eq!(
        asked.posted,
        vec![service.slack_client.post_alert("C123", "/svc/a", "OOM killed")]
    );
}

#[test]
fn an_empty_batch_asks_nothing_of_anyone() {
    let (outcome, asked) = run(
        &notification(),
        "/svc/a",
        &[],
        Outside { pages: vec![], verdicts: vec![], posts: vec![] },
    );
    assert_eq!(outcome, Ok(()));
    assert_eq!(asked, Asked::default());
}

#[test]
fn lines_are_judged_in_order_and_alerted_where_needed() {
    let service = notification();
    let (outcome, asked) = run(
        &service,
        "/svc/a",
        &["first", "second", "third"],
        Outside {
            pages: vec![
                Ok(Page { items: Some(vec![record(1, false)]), last_evaluated_key: Some("c".to_string()) }),
                last_page(vec![record(2, true)]),
                last_page(vec![record(1, false), record(2, true), record(3, true)]),
                last_page(vec![record(1, false)]),
            ],
            verdicts: vec![Ok(verdict(true)), Ok(verdict(false)), Ok(verdict(true))],
            posts: vec![posted_ok(), posted_ok()],
        },
    );
    assert_eq!(outcome, Ok(()));
    assert_eq!(
        asked.queries,
        vec![(0, None), (0, Some("c".to_string())), (1, None), (2, None)]
    );
    assert_eq!(asked.judged.len(), 3);
    let seen = [vec![1, 2], vec![1, 2, 3], vec![1]];
    for ((content, line), records) in asked.judged.iter().zip(["first", "second", "third"]).zip(seen) {
        for n in 1..=3 {
            assert_eq!(
                content.contains(&format!(r#""message":"line {}""#, n)),
                records.contains(&n)
            );
        }
        assert!(content.ends_with(&format!(
            r#"<target_log>{{"message":"{}","timestamp":"{}"}}</target_log>"#,
            line, NOW
        )));
    }
    assert_eq!(
        asked.posted,
        vec![
            service.slack_client.post_alert("C123", "/svc/a", "first"),
            service.slack_client.post_alert("C123", "/svc/a", "third"),
        ]
    );
}

#[test]
fn a_line_that_needs_no_notification_is_not_alerted() {
    let (outcome, asked) = run(
        &notification(),
        "/svc/a",
        &["OOM killed"],
        Outside {
            pages: vec![last_page(vec![record(1, false)])],
            verdicts: vec![Ok(verdict(false))],
            posts: vec![],
        },
    );
    assert_eq!(outcome, Ok(()));
    assert!(asked.posted.is_empty());
}

#[test]
fn the_feedback_is_listed_afresh_for_every_line() {
    let (outcome, asked) = run(
        &notification(),
        "/svc/a",
        &["m1", "m2"],
        Outside {
            pages: vec![
                Ok(Page { items: Some(vec![record(1, false)]), last_evaluated_key: Some("c".to_string()) }),
                last_page(vec![]),
                Ok(Page { items: Some(vec![record(1, false)]), last_evaluated_key: Some("d".to_string()) }),
                last_page(vec![record(2, false)]),
            ],
            verdicts: vec![Ok(verdict(false)), Ok(verdict(false))],
            posts: vec![],
        },
    );
    assert_eq!(outcome, Ok(()));
    assert_eq!(
        asked.queries,
        vec![(0, None), (0, Some("c".to_string())), (1, None), (1, Some("d".to_string()))]
    );
    assert!(!asked.judged[0].contains(r#""message":"line 2""#));
    assert!(asked.judged[1].contains(r#""message":"line 2""#));
}

#[test]
fn a_failure_of_the_store_fails_the_line_it_listed_for() {
    let service = notification();
    let (outcome, asked) = run_on(
        &service,
        "/svc/a",
        &["m1", "m2", "m3"],
        Outside {
            pages: vec![last_page(vec![]), Err("throttled".to_string()), last_page(vec![])],
            verdicts: vec![Ok(verdict(false)), Ok(verdict(true))],
            posts: vec![posted_ok()],
        },
        true,
    );
    assert_eq!(outcome, Ok(()));
    assert_eq!(asked.failed, vec![(1, NotificationError::Outside("throttled".to_string()))]);
    assert_eq!(asked.judged.len(), 2);
    assert_eq!(asked.posted, vec![service.slack_client.post_alert("C123", "/svc/a", "m3")]);
}

#[test]
fn a_failure_of_the_store_gives_the_batch_up_before_any_verdict() {
    let (outcome, asked) = run(
        &notification(),
        "/svc/a",
        &["a", "b"],
        Outside {
            pages: vec![
                Ok(Page { items: Some(vec![record(1, false)]), last_evaluated_key: Some("c".to_string()) }),
                Err("throttled".to_string()),
            ],
            verdicts: vec![],
            posts: vec![],
        },
    );
    assert_eq!(outcome, Err(NotificationError::Outside("throttled".to_string())));
    assert!(asked.judged.is_empty());
}

#[test]
fn an_answer_without_a_verdict_gives_the_batch_up_without_an_alert() {
    let (outcome, asked) = run(
        &notification(),
        "/svc/a",
        &["a", "b"],
        Outside {
            pages: vec![last_page(vec![])],
            verdicts: vec![Ok(ConverseOutput { output: Some(Output::Message(vec![ContentBlock::Other])) })],
            posts: vec![],
        },
    );
    assert_eq!(outcome, Err(NotificationError::Decision(DecisionError::ToolUseNotFound)));
    assert_eq!(asked.judged.len(), 1);
    assert!(asked.posted.is_empty());
}

#[test]
fn a_failure_of_the_judgment_service_gives_the_batch_up() {
    let (outcome, asked) = run(
        &notification(),
        "/svc/a",
        &["a", "b"],
        Outside {
            pages: vec![last_page(vec![]), last_page(vec![])],
            verdicts: vec![Ok(verdict(false)), Err("timeout".to_string())],
            posts: vec![],
        },
    );
    assert_eq!(outcome, Err(NotificationError::Outside("timeout".to_string())));
    assert_eq!(asked.judged.len(), 2);
}

#[test]
fn an_alert_that_is_not_posted_gives_the_batch_up() {
    let (outcome, asked) = run(
        &notification(),
        "/svc/a",
        &["a", "b"],
        Outside {
            pages: vec![last_page(vec![])],
            verdicts: vec![Ok(verdict(true))],
            posts: vec![Ok((true, r#"{"ok":false,"error":"channel_not_found"}"#.to_string()))],
        },
    );
    assert_eq!(
        outcome,
        Err(NotificationError::Remote(RemoteApiError::Rejected {
            error: "channel_not_found".to_string(),
            response_metadata: Json::Null,
        }))
    );
    assert_eq!(asked.judged.len(), 1);
    let (outcome, _) = run(
        &notification(),
        "/svc/a",
        &["a"],
        Outside {
            pages: vec![last_page(vec![])],
            verdicts: vec![Ok(verdict(true))],
            posts: vec![Ok((false, "Bad Gateway".to_string()))],
        },
    );
    assert_eq!(
        outcome,
        Err(NotificationError::Remote(RemoteApiError::Status("Bad Gateway".to_string())))
    );
    let (outcome, _) = run(
        &notification(),
        "/svc/a",
        &["a"],
        Outside {
            pages: vec![last_page(vec![])],
            verdicts: vec![Ok(verdict(true))],
            posts: vec![Err("connection reset".to_string())],
        },
    );
    assert_eq!(outcome, Err(NotificationError::Outside("connection reset".to_string())));
}

#[test]
fn a_caller_may_go_on_behind_a_failed_line() {
    let service = notification();
    let (outcome, asked) = run_on(
        &service,
        "/svc/a",
        &["first", "second", "third"],
        Outside {
            pages: vec![last_page(vec![]), last_page(vec![]), last_page(vec![])],
            verdicts: vec![
                Ok(ConverseOutput { output: None }),
                Ok(verdict(true)),
                Ok(verdict(true)),
            ],
            posts: vec![Ok((false, "Bad Gateway".to_string())), posted_ok()],
        },
        true,
    );
    assert_eq!(outcome, Ok(()));
    assert_eq!(
        asked.failed,
        vec![
            (0, NotificationError::Decision(DecisionError::OutputNotFound)),
            (1, NotificationError::Remote(RemoteApiError::Status("Bad Gateway".to_string()))),
        ]
    );
    assert_eq!(asked.judged.len(), 3);
    assert_eq!(
        asked.posted,
        vec![
            service.slack_client.post_alert("C123", "/svc/a", "second"),
            service.slack_client.post_alert("C123", "/svc/a", "third"),
        ]
    );
}

#[test]
fn a_record_without_a_date_gives_the_batch_up() {
    let mut bad = record(1, true);
    bad.created_at = Timestamp(i64::MAX);
    let (outcome, asked) = run(
        &notification(),
        "/svc/a",
        &["a"],
        Outside { pages: vec![last_page(vec![bad])], verdicts: vec![], posts: vec![] },
    );
    assert_eq!(outcome, Err(NotificationError::Decision(DecisionError::InvalidTimestamp)));
    assert!(asked.judged.is_empty());
}

#[test]
fn the_first_step_lists_the_feedback_of_the_log_group() {
    let step: Step<String, String> =
        notification().slack_notification("/svc/a".to_string(), vec!["OOM killed".to_string()]);
    let Step::Query(batch, listing, request) = step else {
        panic!("the first step is not a query");
    };
    assert_eq!(
        batch,
        Batch {
            log_group: "/svc/a".to_string(),
            messages: vec!["OOM killed".to_string()],
            feedback: vec![],
            position: 0,
        }
    );
    assert!(listing.results.is_empty());
    assert_eq!(request.table_name, "feedback");
    assert_eq!(request.log_group, "/svc/a");
    assert_eq!(request.exclusive_start_key, None);
}

#[test]
fn a_submitted_form_is_recorded_and_the_alert_closed() {
    let service = collection();
    let state = PrivateMetadata {
        ts: "123.45".to_string(),
        log_group: "/svc/a".to_string(),
        message: "OOM killed".to_string(),
    };
    let token = state.encode_base64().unwrap();
    let before = Timestamp::new();
    let plan = service
        .add_feedback(&token, false, Some("known flaky test".to_string()))
        .unwrap();
    let after = Timestamp::new();
    assert_eq!(plan.put.table_name, "feedback");
    assert_eq!(plan.put.item.log_group, "/svc/a");
    assert_eq!(plan.put.item.message, "OOM killed");
    assert!(!plan.put.item.needs_notification);
    assert_eq!(plan.put.item.reason, Some("known flaky test".to_string()));
    assert_eq!((plan.put.item.id.0 >> 76) & 0xf, 4);
    assert!(before.0 <= plan.put.item.created_at.0 && plan.put.item.created_at.0 <= after.0);
    assert_eq!(
        plan.close,
        service.slack_client.close_feedback_button("C123", "123.45", "/svc/a", "OOM killed")
    );
    let again = service
        .add_feedback(&token, false, Some("known flaky test".to_string()))
        .unwrap();
    assert_ne!(again.put.item.id, plan.put.item.id);
}

#[test]
fn a_form_with_a_bad_token_is_not_recorded() {
    let service = collection();
    assert_eq!(service.add_feedback("???", true, None), Err(DecodeError::Base64));
    assert_eq!(service.add_feedback("", true, None), Err(DecodeError::Gzip));
}

#[test]
fn the_plan_for_given_identifier_and_instant() {
    let service = collection();
    let state = PrivateMetadata {
        ts: "1.2".to_string(),
        log_group: "g".to_string(),
        message: "m".to_string(),
    };
    let plan = service.record(&state, FeedbackId(9), Timestamp(10), true, None);
    assert_eq!(
        plan.put.item,
        Feedback {
            id: FeedbackId(9),
            created_at: Timestamp(10),
            log_group: "g".to_string(),
            message: "m".to_string(),
            needs_notification: true,
            reason: None,
        }
    );
    assert_eq!(plan.close, service.slack_client.close_feedback_button("C123", "1.2", "g", "m"));
}

#[test]
fn the_form_is_opened_with_a_token_of_the_alert() {
    let service = collection();
    let request = service
        .open_modal("trigger-1", "123.45".to_string(), "/svc/a".to_string(), "OOM killed".to_string())
        .unwrap();
    assert_eq!(request.url, "https://slack.com/api/views.open");
    assert_eq!(request.body.get("trigger_id"), Some(&Json::text("trigger-1")));
    let token = request.body.get("view").unwrap().get("private_metadata").unwrap().as_str().unwrap();
    assert_eq!(
        PrivateMetadata::try_from(token),
        Ok(PrivateMetadata {
            ts: "123.45".to_string(),
            log_group: "/svc/a".to_string(),
            message: "OOM killed".to_string(),
        })
    );
    assert_eq!(request, service.slack_client.open_modal("trigger-1", token));
}

#[test]
fn a_batch_without_a_line_left_is_through_whatever_it_is_told() {
    let service = notification();
    let through = Batch {
        log_group: "/svc/a".to_string(),
        messages: vec!["a".to_string()],
        feedback: vec![],
        position: 1,
    };
    let step: Step<String, String> = service.on_verdict(through.clone(), Ok(verdict(true)));
    assert_eq!(step, Step::Done);
    let step: Step<String, String> = service.on_posted(through.clone(), posted_ok());
    assert_eq!(step, Step::Done);
    let step: Step<String, String> = service.skip(through);
    assert_eq!(step, Step::Done);
}

#[test]
fn the_alert_is_closed_only_once_the_record_is_stored() {
    let service = collection();
    let state = PrivateMetadata {
        ts: "123.45".to_string(),
        log_group: "/svc/a".to_string(),
        message: "OOM killed".to_string(),
    };
    let plan = service.record(&state, FeedbackId(9), Timestamp(10), false, None);
    let close = service.slack_client.close_feedback_button("C123", "123.45", "/svc/a", "OOM killed");
    let stored: Result<(), String> = Ok(());
    assert_eq!(plan.on_appended(stored), Ok(close));
    let plan = service.record(&state, FeedbackId(9), Timestamp(10), false, None);
    assert_eq!(plan.on_appended(Err("write failed".to_string())), Err("write failed".to_string()));
}

#[test]
fn a_form_with_a_bad_token_is_answered_with_400() {
    let service = collection();
    let outcome: Result<(), FeedbackError<String>> = service
        .add_feedback("not base64!", false, Some("known flaky test".to_string()))
        .map(|_| ())
        .map_err(FeedbackError::Token);
    assert_eq!(outcome, Err(FeedbackError::Token(DecodeError::Base64)));
    assert_eq!(respond_to_feedback(&outcome), StatusCode::BadRequest);
    assert_eq!(respond_to_feedback(&outcome).as_u16(), 400);
}

#[test]
fn the_status_after_a_recording() {
    let done: Result<(), FeedbackError<String>> = Ok(());
    assert_eq!(respond_to_feedback(&done), StatusCode::Success);
    for token in [DecodeError::Base64, DecodeError::Gzip, DecodeError::Json, DecodeError::State] {
        let bad: Result<(), FeedbackError<String>> = Err(FeedbackError::Token(token));
        assert_eq!(respond_to_feedback(&bad), StatusCode::BadRequest);
    }
    let outside: Result<(), FeedbackError<String>> = Err(FeedbackError::Outside("down".to_string()));
    assert_eq!(respond_to_feedback(&outside), StatusCode::InternalServerError);
    let remote: Result<(), FeedbackError<String>> =
        Err(FeedbackError::Remote(RemoteApiError::Unreadable));
    assert_eq!(respond_to_feedback(&remote), StatusCode::InternalServerError);
}

#[test]
fn the_form_is_opened_with_the_same_token_each_time() {
    let service = collection();
    let open = || {
        service
            .open_modal("trigger-1", "123.45".to_string(), "/svc/a".to_string(), "OOM killed".to_string())
            .unwrap()
    };
    assert_eq!(open(), open());
}
