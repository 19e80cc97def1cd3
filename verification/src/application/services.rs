//! The two workflows of the service. One goes through a batch of log lines and
//! posts an alert for each line that deserves one. The other takes feedback on
//! an alert: it opens the feedback form, and records what was submitted.
//!
//! Neither workflow talks to the outside itself. Each one says which request
//! is to be made next, and is told the answer.

use crate::domain::entities::{feedback_view, Feedback, FeedbackView};
use crate::domain::value_objects::{is_random_uuid, FeedbackId, Timestamp};
use crate::infrastructure::bedrock;
use crate::infrastructure::bedrock::{
    converse_request, converse_verdict, ConverseOutput, ConverseOutputView, ConverseRequest,
    ConverseRequestView, DecisionError,
};
use crate::infrastructure::repositories_impl::{
    listing_end, query_request, FeedbackRepositoryImpl, Listing, ListingStep, ListingView, Page,
    PageView, PutRequest, QueryRequest, QueryRequestView,
};
use crate::infrastructure::slack;
use crate::infrastructure::slack::{
    call_outcome, close_feedback_button_request, open_modal_request, post_alert_request,
    response_outcome, state_token, token_state, ApiCall, ApiRequest, ApiRequestView, DecodeError, EncodeError,
    PrivateMetadata, PrivateMetadataView, RemoteApiError, RemoteApiErrorView,
};
use crate::util::rfc3339_utc;
use vstd::prelude::*;

verus! {

/// The workflow that takes feedback on alerts.
#[derive(Debug, Clone, PartialEq)]
pub struct CollectionService {
    pub repo: FeedbackRepositoryImpl,
    pub slack_client: slack::Client,
    pub slack_channel_id: String,
}

/// What recording a piece of feedback asks for: the record is appended to the
/// store first. What follows is told by `on_appended`.
#[derive(Debug, PartialEq)]
pub struct FeedbackPlan {
    pub put: PutRequest,
    pub close: ApiRequest,
}

/// Why feedback was not recorded. `E` is the failure of a request made outside.
#[derive(Debug, PartialEq)]
pub enum FeedbackError<E> {
    /// The token of the form holds no state: the submission cannot be read.
    Token(DecodeError),
    /// The request to the store or to the chat platform failed.
    Outside(E),
    /// The chat platform did not close the alert.
    Remote(RemoteApiError),
}

impl FeedbackPlan {
    /// Goes on after the answer of the store to the append. The alert is
    /// closed only once its record is stored: after a failure the failure is
    /// handed on, and there is no request to close the alert.
    pub fn on_appended<E>(self, answer: Result<(), E>) -> (next: Result<ApiRequest, E>)
        ensures
            match answer {
                Ok(()) => next == Ok::<ApiRequest, E>(self.close),
                Err(e) => next == Err::<ApiRequest, E>(e),
            },
    {
        match answer {
            Ok(()) => Ok(self.close),
            Err(e) => Err(e),
        }
    }
}

impl CollectionService {
    /// The plan that records feedback on the alert that `state` describes,
    /// under the identifier `id` and as given at `created_at`.
    pub fn record(
        &self,
        state: &PrivateMetadata,
        id: FeedbackId,
        created_at: Timestamp,
        needs_notification: bool,
        reason: Option<String>,
    ) -> (plan: FeedbackPlan)
        ensures
            plan.put.table_name@ == self.repo.table_name@,
            plan.put.item@ == (FeedbackView {
                id,
                created_at,
                log_group: state@.log_group,
                message: state@.message,
                needs_notification,
                reason: match reason {
                    Some(r) => Some(r@),
                    None => None,
                },
            }),
            plan.close@ == close_feedback_button_request(
                self.slack_client.token@,
                self.slack_channel_id@,
                state@.ts,
                state@.log_group,
                state@.message,
            ),
    {
        let feedback = Feedback::builder().id(id).created_at(created_at).log_group(
            state.log_group().to_owned(),
        ).message(state.message().to_owned()).needs_notification(needs_notification).reason(
            reason,
        ).build();
        FeedbackPlan {
            put: self.repo.add_feedback(feedback),
            close: self.slack_client.close_feedback_button(
                self.slack_channel_id.as_str(),
                state.ts(),
                state.log_group(),
                state.message(),
            ),
        }
    }

    /// The plan that records the feedback given in a form. The token of the
    /// form says which alert it is about; a token that holds no state is an
    /// error, and then nothing is to be done. The record gets a fresh random
    /// identifier and the current instant.
    pub fn add_feedback(
        &self,
        private_metadata: &str,
        needs_notification: bool,
        reason: Option<String>,
    ) -> (plan: Result<FeedbackPlan, DecodeError>)
        ensures
            match plan {
                Err(e) => token_state(private_metadata@) == Err::<PrivateMetadataView, _>(e),
                Ok(p) => {
                    &&& token_state(private_metadata@) matches Ok(state)
                    &&& p.put.table_name@ == self.repo.table_name@
                    &&& is_random_uuid(p.put.item.id.0)
                    &&& rfc3339_utc(p.put.item.created_at.0 as int) is Some
                    &&& p.put.item@.log_group == state.log_group
                    &&& p.put.item@.message == state.message
                    &&& p.put.item@.needs_notification == needs_notification
                    &&& p.put.item@.reason == match reason {
                        Some(r) => Some(r@),
                        None => None,
                    }
                    &&& p.close@ == close_feedback_button_request(
                        self.slack_client.token@,
                        self.slack_channel_id@,
                        state.ts,
                        state.log_group,
                        state.message,
                    )
                },
            },
    {
        let state = match PrivateMetadata::try_from(private_metadata) {
            Ok(state) => state,
            Err(e) => {
                return Err(e);
            },
        };
        Ok(self.record(&state, FeedbackId::new(), Timestamp::new(), needs_notification, reason))
    }

    /// The request that opens the feedback form for the alert posted as `ts`:
    /// the one request for the form that carries the token of this alert, from
    /// which exactly this alert is read again. Where there is no token there
    /// is no request, and the error says why. Equal alerts give equal tokens.
    pub fn open_modal(&self, trigger_id: &str, ts: String, log_group: String, message: String) -> (request:
        Result<ApiRequest, EncodeError>)
        ensures
            match request {
                Ok(r) => {
                    &&& state_token(
                        PrivateMetadataView { ts: ts@, log_group: log_group@, message: message@ },
                    ) matches Ok(token)
                    &&& r@ == open_modal_request(self.slack_client.token@, trigger_id@, token)
                    &&& token_state(token) == Ok::<_, DecodeError>(
                        PrivateMetadataView { ts: ts@, log_group: log_group@, message: message@ },
                    )
                },
                Err(e) => state_token(
                    PrivateMetadataView { ts: ts@, log_group: log_group@, message: message@ },
                ) == Err::<Seq<char>, _>(e),
            },
    {
        let state = PrivateMetadata::builder().ts(ts).log_group(log_group).message(
            message,
        ).build();
        match state.encode_base64() {
            Ok(token) => Ok(self.slack_client.open_modal(trigger_id, token.as_str())),
            Err(e) => Err(e),
        }
    }
}

/// The workflow that goes through a batch of log lines.
#[derive(Debug, Clone, PartialEq)]
pub struct NotificationService {
    pub repo: FeedbackRepositoryImpl,
    pub bedrock_client: bedrock::Client,
    pub slack_client: slack::Client,
    pub slack_channel_id: String,
}

/// What the workflow reads of its service.
pub struct ServiceView {
    pub table_name: Seq<char>,
    pub model_id: Seq<char>,
    pub token: Seq<char>,
    pub channel_id: Seq<char>,
}

impl View for NotificationService {
    type V = ServiceView;

    open spec fn view(&self) -> ServiceView {
        ServiceView {
            table_name: self.repo.table_name@,
            model_id: self.bedrock_client.model_id@,
            token: self.slack_client.token@,
            channel_id: self.slack_channel_id@,
        }
    }
}

/// Why the work on a line failed. `E` is the failure of a request made outside.
#[derive(Debug, PartialEq)]
pub enum NotificationError<E> {
    /// A request to the store, to the judgment service or to the chat
    /// platform failed.
    Outside(E),
    /// The judgment service gave no verdict.
    Decision(DecisionError),
    /// The chat platform did not post the alert.
    Remote(RemoteApiError),
}

pub enum NotificationErrorView<E> {
    Outside(E),
    Decision(DecisionError),
    Remote(RemoteApiErrorView),
}

impl<E> View for NotificationError<E> {
    type V = NotificationErrorView<E>;

    open spec fn view(&self) -> NotificationErrorView<E> {
        match self {
            NotificationError::Outside(e) => NotificationErrorView::Outside(*e),
            NotificationError::Decision(e) => NotificationErrorView::Decision(*e),
            NotificationError::Remote(e) => NotificationErrorView::Remote(e@),
        }
    }
}

/// A batch of log lines of one log group on its way through the workflow:
/// the lines, the place of the line that is next, and the feedback that was
/// listed for it.
#[derive(Debug, Clone, PartialEq)]
pub struct Batch {
    pub log_group: String,
    pub messages: Vec<String>,
    pub feedback: Vec<Feedback>,
    pub position: usize,
}

pub struct BatchView {
    pub log_group: Seq<char>,
    pub messages: Seq<Seq<char>>,
    pub feedback: Seq<FeedbackView>,
    pub position: nat,
}

/// The views of a run of lines.
pub open spec fn lines_view(lines: Seq<String>) -> Seq<Seq<char>> {
    Seq::new(lines.len(), |i: int| lines[i]@)
}

impl View for Batch {
    type V = BatchView;

    open spec fn view(&self) -> BatchView {
        BatchView {
            log_group: self.log_group@,
            messages: lines_view(self.messages@),
            feedback: feedback_view(self.feedback@),
            position: self.position as nat,
        }
    }
}

impl BatchView {
    /// Whether a line is left.
    pub open spec fn pending(self) -> bool {
        self.position < self.messages.len()
    }

    /// The line that is next.
    pub open spec fn line(self) -> Seq<char> {
        self.messages[self.position as int]
    }

    /// The lines that are left, the next one first.
    pub open spec fn lines_left(self) -> Seq<Seq<char>> {
        self.messages.skip(self.position as int)
    }

    /// The batch with the line that was next behind it.
    pub open spec fn advanced(self) -> BatchView {
        BatchView { position: self.position + 1, ..self }
    }

    /// The batch with the feedback to judge the line that is next by.
    pub open spec fn judged_by(self, feedback: Seq<FeedbackView>) -> BatchView {
        BatchView { feedback, ..self }
    }
}

/// What the workflow asks for next.
#[derive(Debug, PartialEq)]
pub enum Step<C, E> {
    /// A page of the feedback of the log group, listed for the line that is
    /// next.
    Query(Batch, Listing, QueryRequest<C>),
    /// The verdict of the judgment service on the line that is next.
    Converse(Batch, ConverseRequest),
    /// The posting of an alert for the line that is next.
    Post(Batch, ApiRequest),
    /// A decision of the caller: the work on the line that is next failed.
    /// The caller may give the batch up, or go on behind that line.
    Failed(Batch, NotificationError<E>),
    /// Nothing: the batch is through.
    Done,
}

pub enum StepView<C, E> {
    Query(BatchView, ListingView, QueryRequestView<C>),
    Converse(BatchView, ConverseRequestView),
    Post(BatchView, ApiRequestView),
    Failed(BatchView, NotificationErrorView<E>),
    Done,
}

impl<C, E> View for Step<C, E> {
    type V = StepView<C, E>;

    open spec fn view(&self) -> StepView<C, E> {
        match self {
            Step::Query(batch, listing, request) => StepView::Query(batch@, listing@, request@),
            Step::Converse(batch, request) => StepView::Converse(batch@, request@),
            Step::Post(batch, request) => StepView::Post(batch@, request@),
            Step::Failed(batch, error) => StepView::Failed(batch@, error@),
            Step::Done => StepView::Done,
        }
    }
}

/// The step that turns to the line that is next. With no line left the batch
/// is through. Else the feedback of the log group is listed, from its first
/// page on: every line is judged by what the store holds when its turn comes,
/// and no listing is kept from one line to the next.
pub open spec fn turn_to<C, E>(service: ServiceView, batch: BatchView) -> StepView<C, E> {
    if !batch.pending() {
        StepView::Done
    } else {
        StepView::Query(
            batch,
            ListingView {
                table_name: service.table_name,
                log_group: batch.log_group,
                results: Seq::empty(),
            },
            query_request(service.table_name, batch.log_group, None),
        )
    }
}

/// The step that asks for the verdict on the line that is next, once its
/// feedback is listed. Where the request cannot be made, the line has failed.
pub open spec fn judge<C, E>(service: ServiceView, batch: BatchView, timestamp: Seq<char>) -> StepView<
    C,
    E,
> {
    if !batch.pending() {
        StepView::Done
    } else {
        match converse_request(service.model_id, batch.feedback, batch.line(), timestamp) {
            Ok(request) => StepView::Converse(batch, request),
            Err(e) => StepView::Failed(batch, NotificationErrorView::Decision(e)),
        }
    }
}

/// The first step for a batch: its first line is turned to. An empty batch is
/// through at once, and nothing is asked of anyone.
pub open spec fn begin<C, E>(
    service: ServiceView,
    log_group: Seq<char>,
    messages: Seq<Seq<char>>,
) -> StepView<C, E> {
    turn_to(service, BatchView { log_group, messages, feedback: Seq::empty(), position: 0 })
}

/// The step after an answer of the store. The listing goes on as long as the
/// store announces more. With the last page the list is complete, and the
/// verdict on the line is asked for. After a failure the line has failed: no
/// line is ever judged by a part of the feedback.
pub open spec fn after_page<C, E>(
    service: ServiceView,
    batch: BatchView,
    listing: ListingView,
    answer: Result<PageView<C>, E>,
    timestamp: Seq<char>,
) -> StepView<C, E> {
    match answer {
        Err(e) => StepView::Failed(batch, NotificationErrorView::Outside(e)),
        Ok(page) => match listing_end(listing.results, answer) {
            Some(Ok(feedback)) => judge(service, batch.judged_by(feedback), timestamp),
            _ => StepView::Query(
                batch,
                listing.with_page(page),
                query_request(listing.table_name, listing.log_group, page.last_evaluated_key),
            ),
        },
    }
}

/// The step after an answer of the judgment service on the line that is
/// next. (A batch without a line left is through, whatever the answer.) An
/// alert is posted exactly if the verdict is that a notification is needed;
/// otherwise the next line is turned to. After a failure, or an answer
/// without a verdict, the line has failed: no verdict is ever made up.
pub open spec fn after_verdict<C, E>(
    service: ServiceView,
    batch: BatchView,
    answer: Result<ConverseOutputView, E>,
) -> StepView<C, E> {
    if !batch.pending() {
        StepView::Done
    } else {
        match answer {
            Err(e) => StepView::Failed(batch, NotificationErrorView::Outside(e)),
            Ok(output) => match converse_verdict(output) {
                Err(e) => StepView::Failed(batch, NotificationErrorView::Decision(e)),
                Ok(true) => StepView::Post(
                    batch,
                    post_alert_request(
                        service.token,
                        service.channel_id,
                        batch.log_group,
                        batch.line(),
                    ),
                ),
                Ok(false) => turn_to(service, batch.advanced()),
            },
        }
    }
}

/// The step after an answer of the chat platform to the posting of an alert:
/// `answer` holds whether the status was a success, and the body. (A batch
/// without a line left is through, whatever the answer.) Once the alert is
/// posted the next line is turned to. After a failure, or an answer that is
/// no success, the line has failed.
pub open spec fn after_posted<C, E>(
    service: ServiceView,
    batch: BatchView,
    answer: Result<(bool, Seq<char>), E>,
) -> StepView<C, E> {
    if !batch.pending() {
        StepView::Done
    } else {
        match answer {
            Err(e) => StepView::Failed(batch, NotificationErrorView::Outside(e)),
            Ok((success, body)) => match call_outcome(ApiCall::PostAlert, success, body) {
                Err(e) => StepView::Failed(batch, NotificationErrorView::Remote(e)),
                Ok(()) => turn_to(service, batch.advanced()),
            },
        }
    }
}

/// The step that goes on behind a line that has failed: the next line is
/// turned to.
pub open spec fn skipped<C, E>(service: ServiceView, batch: BatchView) -> StepView<C, E> {
    turn_to(service, batch.advanced())
}

/// The verdict of the judgment service stands. Whatever feedback there is,
/// and be it none at all, an alert is posted for a line exactly if the answer
/// of the judgment service declares that a notification is needed, and it is
/// the alert for that line.
pub proof fn lemma_the_verdict_stands<C, E>(
    service: ServiceView,
    batch: BatchView,
    answer: Result<ConverseOutputView, E>,
)
    requires
        batch.pending(),
    ensures
        after_verdict::<C, E>(service, batch, answer) is Post <==> (answer matches Ok(output)
            && converse_verdict(output) == Ok::<bool, DecisionError>(true)),
        after_verdict::<C, E>(service, batch, answer) matches StepView::Post(b, request) ==> b
            == batch && request == post_alert_request(
            service.token,
            service.channel_id,
            batch.log_group,
            batch.line(),
        ),
{
}

/// The place of the line that a step is about, where it is about one.
pub open spec fn step_position<C, E>(step: StepView<C, E>) -> Option<nat> {
    match step {
        StepView::Query(batch, _, _) => Some(batch.position),
        StepView::Converse(batch, _) => Some(batch.position),
        StepView::Post(batch, _) => Some(batch.position),
        StepView::Failed(batch, _) => Some(batch.position),
        StepView::Done => None,
    }
}

/// Lines are taken in the order in which they came, one at a time. The step
/// after an answer is about the same line or about the one behind it, and
/// never about a line before it. And every line has its own listing: where
/// the step after a verdict, after the posting of an alert or behind a failed
/// line is about the next line, it is the request for the first page of the
/// feedback, with nothing listed yet.
pub proof fn lemma_lines_are_taken_in_order<C, E>(
    service: ServiceView,
    batch: BatchView,
    listing: ListingView,
    timestamp: Seq<char>,
    page: Result<PageView<C>, E>,
    verdict: Result<ConverseOutputView, E>,
    posted: Result<(bool, Seq<char>), E>,
)
    ensures
        step_position(after_page::<C, E>(service, batch, listing, page, timestamp)) matches Some(p)
            ==> p == batch.position,
        step_position(after_verdict::<C, E>(service, batch, verdict)) matches Some(p) ==> p
            == batch.position || p == batch.position + 1,
        step_position(after_posted::<C, E>(service, batch, posted)) matches Some(p) ==> p
            == batch.position || p == batch.position + 1,
        after_verdict::<C, E>(service, batch, verdict) matches StepView::Query(b, begun, request)
            ==> b.position == batch.position + 1 && begun.results == Seq::<FeedbackView>::empty()
            && request.exclusive_start_key is None,
        after_posted::<C, E>(service, batch, posted) matches StepView::Query(b, begun, request)
            ==> b.position == batch.position + 1 && begun.results == Seq::<FeedbackView>::empty()
            && request.exclusive_start_key is None,
        skipped::<C, E>(service, batch) matches StepView::Query(b, begun, request) ==> b.position
            == batch.position + 1 && begun.results == Seq::<FeedbackView>::empty()
            && request.exclusive_start_key is None,
{
}

/// An answer from outside to a step of the workflow.
pub enum AnswerView<C, E> {
    /// The answer of the store to a request for a page.
    Page(Result<PageView<C>, E>),
    /// The answer of the judgment service.
    Verdict(Result<ConverseOutputView, E>),
    /// The answer of the chat platform to the posting of an alert.
    Posted(Result<(bool, Seq<char>), E>),
}

/// The step after `answer` was given to `step`. An answer that `step` did not
/// ask for changes nothing.
pub open spec fn react<C, E>(
    service: ServiceView,
    step: StepView<C, E>,
    answer: AnswerView<C, E>,
    timestamp: Seq<char>,
) -> StepView<C, E> {
    match (step, answer) {
        (StepView::Query(batch, listing, _), AnswerView::Page(page)) => after_page(
            service,
            batch,
            listing,
            page,
            timestamp,
        ),
        (StepView::Converse(batch, _), AnswerView::Verdict(verdict)) => after_verdict(
            service,
            batch,
            verdict,
        ),
        (StepView::Post(batch, _), AnswerView::Posted(posted)) => after_posted(
            service,
            batch,
            posted,
        ),
        _ => step,
    }
}

/// The step that the workflow ends up at when it starts at `step` and is
/// given `answers`, one after the other.
pub open spec fn run<C, E>(
    service: ServiceView,
    step: StepView<C, E>,
    answers: Seq<AnswerView<C, E>>,
    timestamp: Seq<char>,
) -> StepView<C, E>
    decreases answers.len(),
{
    if answers.len() == 0 {
        step
    } else {
        run(service, react(service, step, answers[0], timestamp), answers.drop_first(), timestamp)
    }
}

/// The alerts that the workflow asks to post, in order, when it starts at
/// `step` and is given `answers`, one after the other.
pub open spec fn alerts_asked<C, E>(
    service: ServiceView,
    step: StepView<C, E>,
    answers: Seq<AnswerView<C, E>>,
    timestamp: Seq<char>,
) -> Seq<ApiRequestView>
    decreases answers.len(),
{
    let now = match step {
        StepView::Post(_, request) => Seq::empty().push(request),
        _ => Seq::empty(),
    };
    if answers.len() == 0 {
        now
    } else {
        now + alerts_asked(
            service,
            react(service, step, answers[0], timestamp),
            answers.drop_first(),
            timestamp,
        )
    }
}

/// How many listings the workflow begins when it starts at `step` and is
/// given `answers`, one after the other: how often it asks for the first page
/// of the feedback.
pub open spec fn listings_begun<C, E>(
    service: ServiceView,
    step: StepView<C, E>,
    answers: Seq<AnswerView<C, E>>,
    timestamp: Seq<char>,
) -> nat
    decreases answers.len(),
{
    let now: nat = match step {
        StepView::Query(_, _, request) => if request.exclusive_start_key is None {
            1
        } else {
            0
        },
        _ => 0,
    };
    if answers.len() == 0 {
        now
    } else {
        now + listings_begun(
            service,
            react(service, step, answers[0], timestamp),
            answers.drop_first(),
            timestamp,
        )
    }
}

/// The alerts that are due for `lines` of `log_group`, given the answer of
/// the judgment service on each of them: one alert for each line on which the
/// verdict is that a notification is needed, in the order of the lines.
pub open spec fn alerts_due(
    service: ServiceView,
    log_group: Seq<char>,
    lines: Seq<Seq<char>>,
    verdicts: Seq<ConverseOutputView>,
) -> Seq<ApiRequestView>
    decreases verdicts.len(),
{
    if verdicts.len() == 0 || lines.len() == 0 {
        Seq::empty()
    } else {
        let first = if converse_verdict(verdicts[0]) == Ok::<bool, DecisionError>(true) {
            Seq::empty().push(
                post_alert_request(service.token, service.channel_id, log_group, lines[0]),
            )
        } else {
            Seq::empty()
        };
        first + alerts_due(service, log_group, lines.drop_first(), verdicts.drop_first())
    }
}

/// What the outside answers when all goes well: for each line the one page
/// that holds the feedback of the log group at that time, then the answer of
/// the judgment service, and behind each verdict that a notification is
/// needed the answer of the chat platform that the alert was posted.
pub open spec fn answers_when_all_goes_well<C, E>(
    pages: Seq<PageView<C>>,
    verdicts: Seq<ConverseOutputView>,
    posted: Seq<char>,
) -> Seq<AnswerView<C, E>>
    decreases verdicts.len(),
{
    if verdicts.len() == 0 || pages.len() == 0 {
        Seq::empty()
    } else {
        let asked = Seq::empty().push(AnswerView::Page(Ok(pages[0]))).push(
            AnswerView::Verdict(Ok(verdicts[0])),
        );
        let line = if converse_verdict(verdicts[0]) == Ok::<bool, DecisionError>(true) {
            asked.push(AnswerView::Posted(Ok((true, posted))))
        } else {
            asked
        };
        line + answers_when_all_goes_well(pages.drop_first(), verdicts.drop_first(), posted)
    }
}

/// Each line gets its own listing and its verdict, and each verdict its
/// alert. When the lines that are left of a batch are turned to one after
/// the other, and for each line the store lists the feedback on one page,
/// the request to the judgment service can be made, the judgment service
/// gives a verdict, and every alert that is asked for is posted, then the
/// batch comes through; the feedback was listed afresh for every line; and
/// the alerts that were asked for are exactly the alerts for the lines on
/// which the verdict was that a notification is needed, in the order of the
/// lines.
pub proof fn lemma_each_needed_line_is_alerted_in_order<C, E>(
    service: ServiceView,
    batch: BatchView,
    pages: Seq<PageView<C>>,
    verdicts: Seq<ConverseOutputView>,
    posted: Seq<char>,
    timestamp: Seq<char>,
)
    requires
        batch.position + verdicts.len() == batch.messages.len(),
        pages.len() == verdicts.len(),
        forall|i: int| 0 <= i < pages.len() ==> !(#[trigger] pages[i]).continues(),
        forall|i: int| 0 <= i < verdicts.len() ==> converse_verdict(#[trigger] verdicts[i]) is Ok,
        call_outcome(ApiCall::PostAlert, true, posted) is Ok,
        forall|i: int|
            0 <= i < pages.len() ==> converse_request(
                service.model_id,
                (#[trigger] pages[i]).records(),
                batch.messages[batch.position + i],
                timestamp,
            ) is Ok,
    ensures
        run::<C, E>(
            service,
            turn_to(service, batch),
            answers_when_all_goes_well(pages, verdicts, posted),
            timestamp,
        ) == StepView::<C, E>::Done,
        alerts_asked::<C, E>(
            service,
            turn_to(service, batch),
            answers_when_all_goes_well(pages, verdicts, posted),
            timestamp,
        ) == alerts_due(service, batch.log_group, batch.lines_left(), verdicts),
        listings_begun::<C, E>(
            service,
            turn_to(service, batch),
            answers_when_all_goes_well(pages, verdicts, posted),
            timestamp,
        ) == verdicts.len(),
    decreases verdicts.len(),
{
    let start = turn_to::<C, E>(service, batch);
    let answers = answers_when_all_goes_well::<C, E>(pages, verdicts, posted);
    if verdicts.len() == 0 {
        assert(!batch.pending());
    } else {
        assert(batch.pending());
        let empty = ListingView {
            table_name: service.table_name,
            log_group: batch.log_group,
            results: Seq::empty(),
        };
        assert(start == StepView::<C, E>::Query(
            batch,
            empty,
            query_request(service.table_name, batch.log_group, None),
        ));
        let page = AnswerView::<C, E>::Page(Ok(pages[0]));
        let verdict = AnswerView::<C, E>::Verdict(Ok(verdicts[0]));
        let done = AnswerView::<C, E>::Posted(Ok((true, posted)));
        let judged = batch.judged_by(pages[0].records());
        assert(!pages[0].continues());
        assert(Seq::<FeedbackView>::empty() + pages[0].records() =~= pages[0].records());
        assert(converse_request(
            service.model_id,
            pages[0].records(),
            batch.messages[batch.position as int],
            timestamp,
        ) is Ok);
        let asking = react(service, start, page, timestamp);
        assert(asking == judge::<C, E>(service, judged, timestamp));
        assert(asking is Converse);
        assert(asking->Converse_0 == judged);
        let next = judged.advanced();
        let after = turn_to::<C, E>(service, next);
        let rest = answers_when_all_goes_well::<C, E>(
            pages.drop_first(),
            verdicts.drop_first(),
            posted,
        );
        assert forall|i: int| 0 <= i < pages.drop_first().len() implies !(
        #[trigger] pages.drop_first()[i]).continues() by {
            assert(pages.drop_first()[i] == pages[i + 1]);
        }
        assert forall|i: int| 0 <= i < verdicts.drop_first().len() implies converse_verdict(
            #[trigger] verdicts.drop_first()[i],
        ) is Ok by {
            assert(verdicts.drop_first()[i] == verdicts[i + 1]);
        }
        assert forall|i: int| 0 <= i < pages.drop_first().len() implies converse_request(
            service.model_id,
            (#[trigger] pages.drop_first()[i]).records(),
            next.messages[next.position + i],
            timestamp,
        ) is Ok by {
            assert(pages.drop_first()[i] == pages[i + 1]);
            assert(next.messages[next.position + i] == batch.messages[batch.position + (i + 1)]);
        }
        lemma_each_needed_line_is_alerted_in_order::<C, E>(
            service,
            next,
            pages.drop_first(),
            verdicts.drop_first(),
            posted,
            timestamp,
        );
        assert(next.lines_left() =~= batch.lines_left().drop_first());
        assert(batch.lines_left()[0] == batch.line());
        assert(converse_verdict(verdicts[0]) is Ok);
        let due = alerts_due(service, batch.log_group, batch.lines_left(), verdicts);
        let due_rest = alerts_due(
            service,
            batch.log_group,
            next.lines_left(),
            verdicts.drop_first(),
        );
        assert(answers[0] == page);
        assert(answers.drop_first()[0] == verdict);
        assert(run(service, start, answers, timestamp) == run(
            service,
            asking,
            answers.drop_first(),
            timestamp,
        ));
        assert(alerts_asked(service, start, answers, timestamp) =~= alerts_asked(
            service,
            asking,
            answers.drop_first(),
            timestamp,
        ));
        assert(listings_begun(service, start, answers, timestamp) == 1 + listings_begun(
            service,
            asking,
            answers.drop_first(),
            timestamp,
        ));
        if converse_verdict(verdicts[0]) == Ok::<bool, DecisionError>(true) {
            let request = post_alert_request(
                service.token,
                service.channel_id,
                batch.log_group,
                batch.line(),
            );
            let post = react(service, asking, verdict, timestamp);
            assert(post == StepView::<C, E>::Post(judged, request));
            assert(react(service, post, done, timestamp) == after);
            assert(answers.len() >= 3);
            assert(answers.drop_first().drop_first()[0] == done);
            assert(answers.drop_first().drop_first().drop_first() =~= rest);
            assert(run(service, asking, answers.drop_first(), timestamp) == run(
                service,
                post,
                answers.drop_first().drop_first(),
                timestamp,
            ));
            assert(run(service, post, answers.drop_first().drop_first(), timestamp) == run(
                service,
                after,
                rest,
                timestamp,
            ));
            assert(alerts_asked(service, asking, answers.drop_first(), timestamp)
                =~= alerts_asked(service, post, answers.drop_first().drop_first(), timestamp));
            assert(alerts_asked(service, post, answers.drop_first().drop_first(), timestamp)
                =~= Seq::empty().push(request) + alerts_asked(service, after, rest, timestamp));
            assert(due =~= Seq::empty().push(request) + due_rest);
            assert(listings_begun(service, asking, answers.drop_first(), timestamp)
                == listings_begun(service, post, answers.drop_first().drop_first(), timestamp));
            assert(listings_begun(service, post, answers.drop_first().drop_first(), timestamp)
                == listings_begun(service, after, rest, timestamp));
        } else {
            assert(react(service, asking, verdict, timestamp) == after);
            assert(answers.len() >= 2);
            assert(answers.drop_first().drop_first() =~= rest);
            assert(run(service, asking, answers.drop_first(), timestamp) == run(
                service,
                after,
                rest,
                timestamp,
            ));
            assert(alerts_asked(service, asking, answers.drop_first(), timestamp)
                =~= alerts_asked(service, after, rest, timestamp));
            assert(due =~= due_rest);
            assert(listings_begun(service, asking, answers.drop_first(), timestamp)
                == listings_begun(service, after, rest, timestamp));
        }
    }
}

impl NotificationService {
    /// Turns to the line that is next: begins to list the feedback for it.
    fn turn_to<C, E>(&self, batch: Batch) -> (step: Step<C, E>)
        ensures
            step@ == turn_to::<C, E>(self@, batch@),
    {
        if batch.position >= batch.messages.len() {
            return Step::Done;
        }
        let (listing, request) = self.repo.list_feedback_by_log_group(batch.log_group.as_str());
        Step::Query(batch, listing, request)
    }

    /// Asks for the verdict on the line that is next.
    fn judge<C, E>(&self, batch: Batch, timestamp: &str) -> (step: Step<C, E>)
        ensures
            step@ == judge::<C, E>(self@, batch@, timestamp@),
    {
        if batch.position >= batch.messages.len() {
            return Step::Done;
        }
        assert(batch@.line() == batch.messages@[batch.position as int]@);
        match self.bedrock_client.converse_request(
            &batch.feedback,
            batch.messages[batch.position].as_str(),
            timestamp,
        ) {
            Ok(request) => Step::Converse(batch, request),
            Err(e) => Step::Failed(batch, NotificationError::Decision(e)),
        }
    }

    /// Begins the work on a batch of log lines of `log_group`.
    pub fn slack_notification<C, E>(&self, log_group: String, messages: Vec<String>) -> (step: Step<
        C,
        E,
    >)
        ensures
            step@ == begin::<C, E>(self@, log_group@, lines_view(messages@)),
    {
        let batch = Batch { log_group, messages, feedback: Vec::new(), position: 0 };
        assert(batch@.feedback =~= Seq::empty());
        self.turn_to(batch)
    }

    /// Goes on after an answer of the store to the last request for a page.
    /// `timestamp` is the current instant, as the judgment service is to see it.
    pub fn on_page<C, E>(
        &self,
        batch: Batch,
        listing: Listing,
        answer: Result<Page<C>, E>,
        timestamp: &str,
    ) -> (step: Step<C, E>)
        ensures
            step@ == after_page::<C, E>(
                self@,
                batch@,
                listing@,
                match answer {
                    Ok(page) => Ok(page@),
                    Err(e) => Err(e),
                },
                timestamp@,
            ),
    {
        match listing.absorb(answer) {
            ListingStep::Fetch(listing, request) => Step::Query(batch, listing, request),
            ListingStep::Done(Ok(feedback)) => {
                let Batch { log_group, messages, feedback: _, position } = batch;
                self.judge(Batch { log_group, messages, feedback, position }, timestamp)
            },
            ListingStep::Done(Err(e)) => Step::Failed(batch, NotificationError::Outside(e)),
        }
    }

    /// Goes on after an answer of the judgment service on the line that is next.
    pub fn on_verdict<C, E>(&self, batch: Batch, answer: Result<ConverseOutput, E>) -> (step: Step<
        C,
        E,
    >)
        ensures
            step@ == after_verdict::<C, E>(
                self@,
                batch@,
                match answer {
                    Ok(output) => Ok(output@),
                    Err(e) => Err(e),
                },
            ),
    {
        if batch.position >= batch.messages.len() {
            return Step::Done;
        }
        let output = match answer {
            Ok(output) => output,
            Err(e) => {
                return Step::Failed(batch, NotificationError::Outside(e));
            },
        };
        match self.bedrock_client.get_converse_output(output) {
            Err(e) => Step::Failed(batch, NotificationError::Decision(e)),
            Ok(true) => {
                assert(batch@.line() == batch.messages@[batch.position as int]@);
                let request = self.slack_client.post_alert(
                    self.slack_channel_id.as_str(),
                    batch.log_group.as_str(),
                    batch.messages[batch.position].as_str(),
                );
                Step::Post(batch, request)
            },
            Ok(false) => self.turn_to(NotificationService::advance(batch)),
        }
    }

    /// Goes on after an answer of the chat platform to the posting of an
    /// alert: whether the status was a success, and the body.
    pub fn on_posted<C, E>(&self, batch: Batch, answer: Result<(bool, String), E>) -> (step: Step<
        C,
        E,
    >)
        ensures
            step@ == after_posted::<C, E>(
                self@,
                batch@,
                match answer {
                    Ok((success, body)) => Ok((success, body@)),
                    Err(e) => Err(e),
                },
            ),
    {
        if batch.position >= batch.messages.len() {
            return Step::Done;
        }
        let (success, body) = match answer {
            Ok(answer) => answer,
            Err(e) => {
                return Step::Failed(batch, NotificationError::Outside(e));
            },
        };
        match response_outcome(ApiCall::PostAlert, success, body.as_str()) {
            Err(e) => Step::Failed(batch, NotificationError::Remote(e)),
            Ok(()) => self.turn_to(NotificationService::advance(batch)),
        }
    }

    /// Goes on behind a line that has failed, where the caller decides not
    /// to give the batch up.
    pub fn skip<C, E>(&self, batch: Batch) -> (step: Step<C, E>)
        ensures
            step@ == skipped::<C, E>(self@, batch@),
    {
        if batch.position >= batch.messages.len() {
            return Step::Done;
        }
        self.turn_to(NotificationService::advance(batch))
    }

    /// Puts the line that was next behind the batch.
    fn advance(batch: Batch) -> (next: Batch)
        requires
            batch@.pending(),
        ensures
            next@ == batch@.advanced(),
    {
        let Batch { log_group, messages, feedback, position } = batch;
        let lines = messages.len();
        assert(position < lines);
        Batch { log_group, messages, feedback, position: position + 1 }
    }
}

} // verus!
