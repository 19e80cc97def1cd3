//! The decision procedure: the judgment request that puts a new log line next
//! to the feedback given so far, and the verdict taken from the answer.

use crate::domain::entities::{feedback_view, Feedback, FeedbackView};
use crate::json::{json_printed, Json, JsonValue};
use crate::util::rfc3339_utc;
use vstd::prelude::*;

verus! {

/// The instructions given to the judgment service with every request.
pub const SYSTEM_PROMPT: &'static str = "
<role>
You are a log monitor.
</role>
<question>
Refer to the list of past notification feedback (`feedback`) to determine whether a notification is required for the currently occurring error log (`target_log`).
</question>
<data_info>
- feedback: A list of feedback regarding notifications from the operator
  - created_at: The date and time when the feedback was added
  - message: The content of the error log that received feedback
  - needs_notification: Whether a notification is required (`true` means required, `false` means not required)
  - reason: Reasons for necessity or non-necessity (optional)
- target_log: The error log subject to the decision
  - message: The content of the log
  - timestamp: The date and time when the log was generated
</data_info>
<rule>
- Think step-by-step.
- Make a decision only if sufficient inference can be drawn from the feedback content; if not, always return `true`.
- Treat feedback as similar if the `message` in both `feedback` and `target_log` matches 80% or more.
- If the referenced `feedback` for inference contains a `reason`, take its content into account.
- If similar feedback contradict each other, prioritize the feedback with the most recent `created_at` timestamp.
</rule>
";

/// The name of the tool through which the judgment service answers.
pub const TOOL_NAME: &'static str = "judge_needs_notification";

/// What the judgment service is told about the tool.
pub const TOOL_DESCRIPTION: &'static str = "Determines if notification is required.";

/// Why no verdict was reached.
#[derive(Debug, Clone, Copy, PartialEq, Eq, Structural)]
pub enum DecisionError {
    /// A feedback record was created at an instant that has no date.
    InvalidTimestamp,
    /// The request could not be written as JSON.
    Serialize,
    /// The answer has no output.
    OutputNotFound,
    /// The output of the answer is not a message.
    OutputNotMessage,
    /// The input of a tool use in the answer is not an object.
    InputNotObject,
    /// The input of a tool use in the answer has no `needs_notification`.
    NeedsNotificationNotFound,
    /// `needs_notification` in the input of a tool use is not a boolean.
    NeedsNotificationNotBoolean,
    /// The answer holds no tool use.
    ToolUseNotFound,
}

/// A feedback record as the judgment service sees it.
#[derive(Debug, Clone, PartialEq)]
pub struct FeedbackDto {
    pub created_at: String,
    pub message: String,
    pub needs_notification: bool,
    pub reason: Option<String>,
}

pub struct FeedbackDtoView {
    pub created_at: Seq<char>,
    pub message: Seq<char>,
    pub needs_notification: bool,
    pub reason: Option<Seq<char>>,
}

impl View for FeedbackDto {
    type V = FeedbackDtoView;

    open spec fn view(&self) -> FeedbackDtoView {
        FeedbackDtoView {
            created_at: self.created_at@,
            message: self.message@,
            needs_notification: self.needs_notification,
            reason: match self.reason {
                Some(r) => Some(r@),
                None => None,
            },
        }
    }
}

/// What the judgment service sees of a feedback record: its message, verdict
/// and reason, and the instant it was created at as RFC 3339 text. A record
/// whose instant has no date has no such projection.
pub open spec fn dto_of(feedback: FeedbackView) -> Option<FeedbackDtoView> {
    match rfc3339_utc(feedback.created_at.0 as int) {
        Some(created_at) => Some(
            FeedbackDtoView {
                created_at,
                message: feedback.message,
                needs_notification: feedback.needs_notification,
                reason: feedback.reason,
            },
        ),
        None => None,
    }
}

/// A projected feedback record as a JSON object; a missing reason is `null`.
pub open spec fn dto_document(dto: FeedbackDtoView) -> JsonValue {
    JsonValue::object().with("created_at"@, JsonValue::text(dto.created_at)).with(
        "message"@,
        JsonValue::text(dto.message),
    ).with("needs_notification"@, JsonValue::Bool(dto.needs_notification)).with(
        "reason"@,
        match dto.reason {
            Some(r) => JsonValue::text(r),
            None => JsonValue::Null,
        },
    )
}

/// The log line to judge as a JSON object.
pub open spec fn target_document(message: Seq<char>, timestamp: Seq<char>) -> JsonValue {
    JsonValue::object().with("message"@, JsonValue::text(message)).with(
        "timestamp"@,
        JsonValue::text(timestamp),
    )
}

impl FeedbackDto {
    /// Projects a feedback record; fails where its instant has no date.
    pub fn try_from(value: &Feedback) -> (dto: Result<FeedbackDto, DecisionError>)
        ensures
            match dto {
                Ok(d) => dto_of(value@) == Some(d@),
                Err(e) => e == DecisionError::InvalidTimestamp && dto_of(value@) is None,
            },
    {
        match value.created_at().to_rfc3339() {
            Some(created_at) => Ok(
                FeedbackDto {
                    created_at,
                    message: value.message().to_owned(),
                    needs_notification: value.needs_notification(),
                    reason: match value.reason() {
                        Some(r) => Some(r.clone()),
                        None => None,
                    },
                },
            ),
            None => Err(DecisionError::InvalidTimestamp),
        }
    }

    pub fn to_json(&self) -> (document: Json)
        ensures
            document@ == dto_document(self@),
    {
        Json::empty_object().with("created_at", Json::text(self.created_at.as_str())).with(
            "message",
            Json::text(self.message.as_str()),
        ).with("needs_notification", Json::Bool(self.needs_notification)).with(
            "reason",
            match &self.reason {
                Some(r) => Json::text(r.as_str()),
                None => Json::Null,
            },
        )
    }
}

/// The log line to judge.
#[derive(Debug, Clone, PartialEq)]
pub struct TargetLog {
    pub message: String,
    pub timestamp: String,
}

impl TargetLog {
    pub fn to_json(&self) -> (document: Json)
        ensures
            document@ == target_document(self.message@, self.timestamp@),
    {
        Json::empty_object().with("message", Json::text(self.message.as_str())).with(
            "timestamp",
            Json::text(self.timestamp.as_str()),
        )
    }
}

/// Every record of the history has a date.
pub open spec fn all_dated(feedback: Seq<FeedbackView>) -> bool {
    forall|i: int| 0 <= i < feedback.len() ==> dto_of(#[trigger] feedback[i]) is Some
}

/// The history as a JSON list: one object for each record, in the order given.
pub open spec fn history_document(feedback: Seq<FeedbackView>) -> JsonValue {
    JsonValue::List(Seq::new(feedback.len(), |i: int| dto_document(dto_of(feedback[i])->0)))
}

/// The text put before the judgment service: the whole history and the log
/// line to judge, each as JSON inside its tag.
pub open spec fn user_content(
    feedback: Seq<FeedbackView>,
    message: Seq<char>,
    timestamp: Seq<char>,
) -> Result<Seq<char>, DecisionError> {
    if !all_dated(feedback) {
        Err(DecisionError::InvalidTimestamp)
    } else {
        match (
            json_printed(history_document(feedback)),
            json_printed(target_document(message, timestamp)),
        ) {
            (Some(history), Some(target)) => Ok(
                "<feedback>"@ + history + "</feedback><target_log>"@ + target + "</target_log>"@,
            ),
            _ => Err(DecisionError::Serialize),
        }
    }
}

/// The schema of the tool's input: an object with one required boolean,
/// `needs_notification`.
pub open spec fn tool_schema() -> JsonValue {
    JsonValue::object().with("type"@, JsonValue::text("object"@)).with(
        "properties"@,
        JsonValue::object().with(
            "needs_notification"@,
            JsonValue::object().with("type"@, JsonValue::text("boolean"@)).with(
                "description"@,
                JsonValue::text(
                    "If notification is necessary, set to true, otherwise set to false."@,
                ),
            ),
        ),
    ).with("required"@, JsonValue::list().and(JsonValue::text("needs_notification"@)))
}

/// The names of a projected record's members differ from one another, and so
/// do those of a log line's.
pub proof fn lemma_member_names_differ()
    ensures
        "created_at"@ != "message"@,
        "created_at"@ != "needs_notification"@,
        "created_at"@ != "reason"@,
        "message"@ != "needs_notification"@,
        "message"@ != "reason"@,
        "needs_notification"@ != "reason"@,
        "message"@ != "timestamp"@,
{
    reveal_strlit("created_at");
    reveal_strlit("message");
    reveal_strlit("needs_notification");
    reveal_strlit("reason");
    reveal_strlit("timestamp");
    assert("created_at"@.len() == 10);
    assert("message"@.len() == 7);
    assert("needs_notification"@.len() == 18);
    assert("reason"@.len() == 6);
    assert("timestamp"@.len() == 9);
}

/// No object in the JSON form of a projected record names a member twice.
pub proof fn lemma_dto_document_unambiguous(dto: FeedbackDtoView)
    ensures
        dto_document(dto).unambiguous(),
{
    lemma_member_names_differ();
    let members = dto_document(dto)->Object_0;
    assert(members.len() == 4);
    assert forall|i: int| 0 <= i < members.len() implies (#[trigger] members[i]).1.unambiguous() by {
        if i == 3 {
            assert(members[i].1 is Text || members[i].1 is Null);
        }
    }
}

/// No object in the JSON form of a log line names a member twice.
pub proof fn lemma_target_document_unambiguous(message: Seq<char>, timestamp: Seq<char>)
    ensures
        target_document(message, timestamp).unambiguous(),
{
    lemma_member_names_differ();
    let members = target_document(message, timestamp)->Object_0;
    assert(members.len() == 2);
    assert forall|i: int| 0 <= i < members.len() implies (#[trigger] members[i]).1.unambiguous() by {
        assert(members[i].1 is Text);
    }
}

/// No object in the JSON form of a history names a member twice.
pub proof fn lemma_history_document_unambiguous(feedback: Seq<FeedbackView>)
    ensures
        history_document(feedback).unambiguous(),
{
    let items = history_document(feedback)->List_0;
    assert forall|i: int| 0 <= i < items.len() implies (#[trigger] items[i]).unambiguous() by {
        lemma_dto_document_unambiguous(dto_of(feedback[i])->0);
    }
}

/// The request to the judgment service.
#[derive(Debug, PartialEq)]
pub struct ConverseRequest {
    pub model_id: String,
    pub system: String,
    pub user_content: String,
    pub tool_name: String,
    pub tool_description: String,
    pub tool_schema: Json,
}

pub struct ConverseRequestView {
    pub model_id: Seq<char>,
    pub system: Seq<char>,
    pub user_content: Seq<char>,
    pub tool_name: Seq<char>,
    pub tool_description: Seq<char>,
    pub tool_schema: JsonValue,
}

impl View for ConverseRequest {
    type V = ConverseRequestView;

    open spec fn view(&self) -> ConverseRequestView {
        ConverseRequestView {
            model_id: self.model_id@,
            system: self.system@,
            user_content: self.user_content@,
            tool_name: self.tool_name@,
            tool_description: self.tool_description@,
            tool_schema: self.tool_schema@,
        }
    }
}

/// The judgment request for a log line: the fixed instructions, the history
/// with the log line as the user's content, and the one tool to answer through.
pub open spec fn converse_request(
    model_id: Seq<char>,
    feedback: Seq<FeedbackView>,
    message: Seq<char>,
    timestamp: Seq<char>,
) -> Result<ConverseRequestView, DecisionError> {
    match user_content(feedback, message, timestamp) {
        Ok(content) => Ok(
            ConverseRequestView {
                model_id,
                system: SYSTEM_PROMPT@,
                user_content: content,
                tool_name: TOOL_NAME@,
                tool_description: TOOL_DESCRIPTION@,
                tool_schema: tool_schema(),
            },
        ),
        Err(e) => Err(e),
    }
}

/// One item of the content of an answer.
#[derive(Debug, PartialEq)]
pub enum ContentBlock {
    /// A use of the tool, with the input given to it.
    ToolUse(Json),
    /// Anything else: text, reasoning, an image.
    Other,
}

pub enum ContentBlockView {
    ToolUse(JsonValue),
    Other,
}

impl View for ContentBlock {
    type V = ContentBlockView;

    open spec fn view(&self) -> ContentBlockView {
        match self {
            ContentBlock::ToolUse(input) => ContentBlockView::ToolUse(input@),
            ContentBlock::Other => ContentBlockView::Other,
        }
    }
}

/// The views of a run of content items.
pub open spec fn content_view(content: Seq<ContentBlock>) -> Seq<ContentBlockView> {
    Seq::new(content.len(), |i: int| content[i]@)
}

/// The output of an answer.
#[derive(Debug, PartialEq)]
pub enum Output {
    /// A message with its content.
    Message(Vec<ContentBlock>),
    /// Any other kind of output.
    Unknown,
}

/// The answer of the judgment service.
#[derive(Debug, PartialEq)]
pub struct ConverseOutput {
    pub output: Option<Output>,
}

pub enum ConverseOutputView {
    /// The answer has no output.
    Missing,
    /// The output is no message.
    Unknown,
    /// The output is a message with this content.
    Message(Seq<ContentBlockView>),
}

impl View for ConverseOutput {
    type V = ConverseOutputView;

    open spec fn view(&self) -> ConverseOutputView {
        match self.output {
            None => ConverseOutputView::Missing,
            Some(Output::Unknown) => ConverseOutputView::Unknown,
            Some(Output::Message(content)) => ConverseOutputView::Message(content_view(content@)),
        }
    }
}

/// The verdict that one use of the tool declares: its input is an object
/// whose member `needs_notification` is a boolean.
pub open spec fn tool_verdict(input: JsonValue) -> Result<bool, DecisionError> {
    if !(input is Object) {
        Err(DecisionError::InputNotObject)
    } else {
        match input.field("needs_notification"@) {
            None => Err(DecisionError::NeedsNotificationNotFound),
            Some(JsonValue::Bool(needed)) => Ok(needed),
            Some(_) => Err(DecisionError::NeedsNotificationNotBoolean),
        }
    }
}

/// Goes through the content in order, starting from the verdict `seen` so
/// far: every use of the tool replaces the verdict, and the first use of the
/// tool that declares none ends the scan with its error.
pub open spec fn scan(content: Seq<ContentBlockView>, seen: Option<bool>) -> Result<
    Option<bool>,
    DecisionError,
>
    decreases content.len(),
{
    if content.len() == 0 {
        Ok(seen)
    } else {
        match content[0] {
            ContentBlockView::ToolUse(input) => match tool_verdict(input) {
                Ok(needed) => scan(content.drop_first(), Some(needed)),
                Err(e) => Err(e),
            },
            ContentBlockView::Other => scan(content.drop_first(), seen),
        }
    }
}

/// The verdict of an answer: the one declared by the last use of the tool in
/// its message. An answer without output, without a message, without a use of
/// the tool, or with a use of the tool that declares no verdict, has none.
pub open spec fn converse_verdict(answer: ConverseOutputView) -> Result<bool, DecisionError> {
    match answer {
        ConverseOutputView::Missing => Err(DecisionError::OutputNotFound),
        ConverseOutputView::Unknown => Err(DecisionError::OutputNotMessage),
        ConverseOutputView::Message(content) => match scan(content, None) {
            Ok(Some(needed)) => Ok(needed),
            Ok(None) => Err(DecisionError::ToolUseNotFound),
            Err(e) => Err(e),
        },
    }
}

/// Every use of the tool in `content` declares a verdict.
pub open spec fn all_declare(content: Seq<ContentBlockView>) -> bool {
    forall|i: int|
        0 <= i < content.len() ==> ((#[trigger] content[i]) matches ContentBlockView::ToolUse(
            input,
        ) ==> tool_verdict(input) is Ok)
}

/// A scan of content in which every use of the tool declares a verdict, when
/// a use of the tool that declares `needed` is put behind it, ends with
/// `needed`, whatever was seen before.
pub proof fn lemma_scan_ends_with_last(
    content: Seq<ContentBlockView>,
    input: JsonValue,
    needed: bool,
    seen: Option<bool>,
)
    requires
        all_declare(content),
        tool_verdict(input) == Ok::<_, DecisionError>(needed),
    ensures
        scan(content.push(ContentBlockView::ToolUse(input)), seen) == Ok::<_, DecisionError>(
            Some(needed),
        ),
    decreases content.len(),
{
    let whole = content.push(ContentBlockView::ToolUse(input));
    if content.len() == 0 {
        assert(whole.drop_first() =~= Seq::empty());
        assert(scan(whole.drop_first(), Some(needed)) == Ok::<_, DecisionError>(Some(needed)));
    } else {
        assert(whole[0] == content[0]);
        assert(whole.drop_first() =~= content.drop_first().push(ContentBlockView::ToolUse(input)));
        assert forall|i: int| 0 <= i < content.drop_first().len() implies ((
        #[trigger] content.drop_first()[i]) matches ContentBlockView::ToolUse(x) ==> tool_verdict(
            x,
        ) is Ok) by {
            assert(content.drop_first()[i] == content[i + 1]);
        }
        match content[0] {
            ContentBlockView::ToolUse(first) => {
                lemma_scan_ends_with_last(
                    content.drop_first(),
                    input,
                    needed,
                    Some(tool_verdict(first)->Ok_0),
                );
            },
            ContentBlockView::Other => {
                lemma_scan_ends_with_last(content.drop_first(), input, needed, seen);
            },
        }
    }
}

/// A scan is not changed by content without a use of the tool behind it.
pub proof fn lemma_scan_skips_others(
    content: Seq<ContentBlockView>,
    tail: Seq<ContentBlockView>,
    seen: Option<bool>,
)
    requires
        forall|i: int| 0 <= i < tail.len() ==> (#[trigger] tail[i]) is Other,
    ensures
        scan(content + tail, seen) == match scan(content, seen) {
            Ok(v) => scan(tail, v),
            Err(e) => Err(e),
        },
        scan(tail, seen) == Ok::<_, DecisionError>(seen),
    decreases content.len() + tail.len(),
{
    if tail.len() > 0 {
        assert(tail[0] is Other);
        assert forall|i: int| 0 <= i < tail.drop_first().len() implies (
        #[trigger] tail.drop_first()[i]) is Other by {
            assert(tail.drop_first()[i] == tail[i + 1]);
        }
        lemma_scan_skips_others(Seq::empty(), tail.drop_first(), seen);
    }
    if content.len() == 0 {
        assert(content + tail =~= tail);
    } else {
        assert((content + tail)[0] == content[0]);
        assert((content + tail).drop_first() =~= content.drop_first() + tail);
        match content[0] {
            ContentBlockView::ToolUse(first) => {
                if tool_verdict(first) is Ok {
                    lemma_scan_skips_others(
                        content.drop_first(),
                        tail,
                        Some(tool_verdict(first)->Ok_0),
                    );
                }
            },
            ContentBlockView::Other => {
                lemma_scan_skips_others(content.drop_first(), tail, seen);
            },
        }
    }
}

/// The last use of the tool decides. Where every use of the tool in a message
/// declares a verdict, the verdict of the answer is the one declared by the
/// last of them, whatever the earlier ones declared and whatever else stands
/// before, between or behind them.
pub proof fn lemma_last_tool_use_wins(
    before: Seq<ContentBlockView>,
    input: JsonValue,
    behind: Seq<ContentBlockView>,
)
    requires
        all_declare(before),
        tool_verdict(input) is Ok,
        forall|i: int| 0 <= i < behind.len() ==> (#[trigger] behind[i]) is Other,
    ensures
        converse_verdict(
            ConverseOutputView::Message(before.push(ContentBlockView::ToolUse(input)) + behind),
        ) == tool_verdict(input),
{
    let needed = tool_verdict(input)->Ok_0;
    lemma_scan_ends_with_last(before, input, needed, None);
    lemma_scan_skips_others(before.push(ContentBlockView::ToolUse(input)), behind, None);
    lemma_scan_skips_others(Seq::empty(), behind, Some(needed));
}

/// The decision on a log line, given the answer of the judgment service to
/// the request for it: the verdict of the answer, or the reason why no
/// request could be made.
pub open spec fn decision(
    model_id: Seq<char>,
    feedback: Seq<FeedbackView>,
    message: Seq<char>,
    timestamp: Seq<char>,
    reply: ConverseOutputView,
) -> Result<bool, DecisionError> {
    match converse_request(model_id, feedback, message, timestamp) {
        Ok(_) => converse_verdict(reply),
        Err(e) => Err(e),
    }
}

/// Every request carries the instructions and the schema of the tool,
/// whatever the feedback, the line and the time.
pub proof fn lemma_every_request_carries_the_instructions(
    model_id: Seq<char>,
    feedback: Seq<FeedbackView>,
    message: Seq<char>,
    timestamp: Seq<char>,
)
    ensures
        converse_request(model_id, feedback, message, timestamp) matches Ok(request) ==> {
            &&& request.system == SYSTEM_PROMPT@
            &&& request.tool_name == TOOL_NAME@
            &&& request.tool_schema == tool_schema()
        },
{
}

/// The client of the judgment service: it knows the model to ask.
#[derive(Debug, Clone, PartialEq)]
pub struct Client {
    pub model_id: String,
}

impl Client {
    /// The history as a JSON list, or the error of the first record without a date.
    fn history(feedback: &Vec<Feedback>) -> (document: Result<Json, DecisionError>)
        ensures
            match document {
                Ok(d) => all_dated(feedback_view(feedback@)) && d@ == history_document(
                    feedback_view(feedback@),
                ),
                Err(e) => e == DecisionError::InvalidTimestamp && !all_dated(
                    feedback_view(feedback@),
                ),
            },
    {
        let ghost all = feedback_view(feedback@);
        let mut list = Json::empty_list();
        let mut i: usize = 0;
        assert(Seq::<JsonValue>::empty() =~= Seq::new(
            0nat,
            |k: int| dto_document(dto_of(all[k])->0),
        ));
        while i < feedback.len()
            invariant
                i <= feedback.len(),
                all == feedback_view(feedback@),
                forall|k: int| 0 <= k < i ==> dto_of(#[trigger] all[k]) is Some,
                list@ == JsonValue::List(
                    Seq::new(i as nat, |k: int| dto_document(dto_of(all[k])->0)),
                ),
            decreases feedback.len() - i,
        {
            let dto = match FeedbackDto::try_from(&feedback[i]) {
                Ok(dto) => dto,
                Err(e) => {
                    assert(dto_of(all[i as int]) is None);
                    return Err(e);
                },
            };
            let ghost before = list@->List_0;
            list = list.and(dto.to_json());
            assert(before.push(dto_document(dto@)) =~= Seq::new(
                (i + 1) as nat,
                |k: int| dto_document(dto_of(all[k])->0),
            ));
            i += 1;
        }
        Ok(list)
    }

    /// The request that asks whether the log line `message`, seen at
    /// `timestamp`, needs a notification, given the feedback so far. There is
    /// a request whenever every record of the feedback has a date.
    pub fn converse_request(&self, feedback: &Vec<Feedback>, message: &str, timestamp: &str) -> (request:
        Result<ConverseRequest, DecisionError>)
        ensures
            all_dated(feedback_view(feedback@)) ==> request is Ok,
            match request {
                Ok(r) => converse_request(
                    self.model_id@,
                    feedback_view(feedback@),
                    message@,
                    timestamp@,
                ) == Ok::<_, DecisionError>(r@),
                Err(e) => converse_request(
                    self.model_id@,
                    feedback_view(feedback@),
                    message@,
                    timestamp@,
                ) == Err::<ConverseRequestView, _>(e),
            },
    {
        let history = match Client::history(feedback) {
            Ok(history) => history,
            Err(e) => {
                return Err(e);
            },
        };
        let target = TargetLog { message: message.to_owned(), timestamp: timestamp.to_owned() };
        proof {
            lemma_history_document_unambiguous(feedback_view(feedback@));
            lemma_target_document_unambiguous(message@, timestamp@);
        }
        let history_text = history.to_text();
        let target_text = target.to_json().to_text();
        match (history_text, target_text) {
            (Some(h), Some(t)) => {
                let content = String::from_str("<feedback>").concat(h.as_str()).concat(
                    "</feedback><target_log>",
                ).concat(t.as_str()).concat("</target_log>");
                Ok(
                    ConverseRequest {
                        model_id: self.model_id.clone(),
                        system: String::from_str(SYSTEM_PROMPT),
                        user_content: content,
                        tool_name: String::from_str(TOOL_NAME),
                        tool_description: String::from_str(TOOL_DESCRIPTION),
                        tool_schema: self.make_tool_schema(),
                    },
                )
            },
            _ => Err(DecisionError::Serialize),
        }
    }

    /// The verdict that one use of the tool declares.
    fn tool_input_verdict(input: &Json) -> (verdict: Result<bool, DecisionError>)
        ensures
            verdict == tool_verdict(input@),
    {
        match input.as_object() {
            None => Err(DecisionError::InputNotObject),
            Some(_) => match input.get("needs_notification") {
                None => Err(DecisionError::NeedsNotificationNotFound),
                Some(value) => match value.as_bool() {
                    Some(needed) => Ok(needed),
                    None => Err(DecisionError::NeedsNotificationNotBoolean),
                },
            },
        }
    }

    /// Takes the verdict from the answer of the judgment service. The answer
    /// is never second-guessed: whatever its last use of the tool declares is
    /// the verdict, and an answer that declares nothing is an error.
    pub fn get_converse_output(&self, resp: ConverseOutput) -> (verdict: Result<
        bool,
        DecisionError,
    >)
        ensures
            verdict == converse_verdict(resp@),
    {
        let ghost answer = resp@;
        let content = match resp.output {
            None => {
                return Err(DecisionError::OutputNotFound);
            },
            Some(Output::Unknown) => {
                return Err(DecisionError::OutputNotMessage);
            },
            Some(Output::Message(content)) => content,
        };
        let ghost all = content_view(content@);
        assert(all.skip(0) =~= all);
        let mut needs_notification: Option<bool> = None;
        let mut i: usize = 0;
        while i < content.len()
            invariant
                i <= content.len(),
                all == content_view(content@),
                answer == ConverseOutputView::Message(all),
                answer == resp@,
                scan(all, None) == scan(all.skip(i as int), needs_notification),
            decreases content.len() - i,
        {
            let ghost rest = all.skip(i as int);
            assert(rest[0] == content@[i as int]@);
            assert(rest.drop_first() =~= all.skip(i + 1));
            match &content[i] {
                ContentBlock::ToolUse(input) => {
                    match Client::tool_input_verdict(input) {
                        Ok(needed) => {
                            needs_notification = Some(needed);
                        },
                        Err(e) => {
                            return Err(e);
                        },
                    }
                },
                ContentBlock::Other => {},
            }
            i += 1;
        }
        assert(all.skip(i as int) =~= Seq::empty());
        match needs_notification {
            Some(needed) => Ok(needed),
            None => Err(DecisionError::ToolUseNotFound),
        }
    }

    /// Decides on the log line `message`, seen at `timestamp`, given the
    /// feedback so far and the answer `reply` of the judgment service to the
    /// request for this line. The verdict of the answer is handed on as it
    /// is: it is neither overridden nor made up, whatever the feedback, and be
    /// it none at all. Where no request could be made for the line, that is
    /// the error.
    pub fn needs_notification(
        &self,
        feedback: &Vec<Feedback>,
        message: &str,
        timestamp: &str,
        reply: ConverseOutput,
    ) -> (verdict: Result<bool, DecisionError>)
        ensures
            verdict == decision(
                self.model_id@,
                feedback_view(feedback@),
                message@,
                timestamp@,
                reply@,
            ),
            all_dated(feedback_view(feedback@)) ==> verdict == converse_verdict(reply@),
    {
        match self.converse_request(feedback, message, timestamp) {
            Ok(_) => self.get_converse_output(reply),
            Err(e) => Err(e),
        }
    }

    /// The schema of the tool's input.
    pub fn make_tool_schema(&self) -> (schema: Json)
        ensures
            schema@ == tool_schema(),
    {
        Json::empty_object().with("type", Json::text("object")).with(
            "properties",
            Json::empty_object().with(
                "needs_notification",
                Json::empty_object().with("type", Json::text("boolean")).with(
                    "description",
                    Json::text("If notification is necessary, set to true, otherwise set to false."),
                ),
            ),
        ).with("required", Json::empty_list().and(Json::text("needs_notification")))
    }
}

} // verus!
