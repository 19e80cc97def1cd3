//! The interaction payloads that the chat platform posts to the webhook: what
//! they hold, and how they are read from a JSON document.

use crate::json::{distinct_keys, json_parsed, list_view, members_view, Json, JsonValue};
use crate::text::same_text;
use crate::util::{deserialize_bool, text_bool};
use vstd::prelude::*;

verus! {

/// The identifiers this service gives to the blocks of an alert message.
#[derive(Debug, Clone, Copy, PartialEq, Eq, Structural)]
pub enum BlockId {
    Header,
    LogGroupHeader,
    MessageHeader,
    LogGroup,
    Message,
    Divider,
    FeedbackButton,
}

/// The text object of a block.
#[derive(Debug, Clone, PartialEq)]
pub struct Text {
    pub value: String,
}

/// One block of a posted message.
#[derive(Debug, Clone, PartialEq)]
pub struct Block {
    pub block_id: BlockId,
    pub text: Option<Text>,
}

/// A block as a mathematical value: its identifier and, where it has one, its text.
pub struct BlockView {
    pub block_id: BlockId,
    pub text: Option<Seq<char>>,
}

impl View for Block {
    type V = BlockView;

    open spec fn view(&self) -> BlockView {
        BlockView {
            block_id: self.block_id,
            text: match self.text {
                Some(t) => Some(t.value@),
                None => None,
            },
        }
    }
}

/// The views of a run of blocks.
pub open spec fn blocks_view(blocks: Seq<Block>) -> Seq<BlockView> {
    Seq::new(blocks.len(), |i: int| blocks[i]@)
}

/// The text of the first block among `blocks` that is named `id` and has a text.
pub open spec fn first_text(blocks: Seq<BlockView>, id: BlockId) -> Option<Seq<char>>
    decreases blocks.len(),
{
    if blocks.len() == 0 {
        None
    } else if blocks[0].block_id == id && blocks[0].text is Some {
        blocks[0].text
    } else {
        first_text(blocks.drop_first(), id)
    }
}

/// The message an interaction came from.
#[derive(Debug, Clone, PartialEq)]
pub struct Message {
    pub ts: String,
    pub blocks: Vec<Block>,
}

/// A press of the feedback button under an alert.
#[derive(Debug, Clone, PartialEq)]
pub struct OpenModal {
    pub trigger_id: String,
    pub message: Message,
}

pub struct OpenModalView {
    pub trigger_id: Seq<char>,
    pub ts: Seq<char>,
    pub blocks: Seq<BlockView>,
}

impl View for OpenModal {
    type V = OpenModalView;

    open spec fn view(&self) -> OpenModalView {
        OpenModalView {
            trigger_id: self.trigger_id@,
            ts: self.message.ts@,
            blocks: blocks_view(self.message.blocks@),
        }
    }
}

impl OpenModal {
    pub fn trigger_id(&self) -> (id: &str)
        ensures
            id@ == self@.trigger_id,
    {
        self.trigger_id.as_str()
    }

    pub fn get_ts(&self) -> (ts: &str)
        ensures
            ts@ == self@.ts,
    {
        self.message.ts.as_str()
    }

    /// The text of the first block named `id` that has one.
    fn text_of(&self, id: BlockId) -> (text: Option<&str>)
        ensures
            match text {
                Some(t) => first_text(self@.blocks, id) == Some(t@),
                None => first_text(self@.blocks, id) is None,
            },
    {
        let blocks = &self.message.blocks;
        let ghost all = blocks_view(blocks@);
        assert(all.skip(0) =~= all);
        let mut i: usize = 0;
        while i < blocks.len()
            invariant
                i <= blocks.len(),
                all == blocks_view(blocks@),
                all == self@.blocks,
                first_text(all, id) == first_text(all.skip(i as int), id),
            decreases blocks.len() - i,
        {
            let ghost rest = all.skip(i as int);
            assert(rest[0] == all[i as int]);
            assert(rest.drop_first() =~= all.skip(i + 1));
            let block = &blocks[i];
            assert(rest[0] == block@);
            if block.block_id == id {
                match &block.text {
                    Some(t) => {
                        return Some(t.value.as_str());
                    },
                    None => {},
                }
            }
            i += 1;
        }
        None
    }

    /// The log group shown in the alert: the text of its log-group block.
    pub fn get_log_group(&self) -> (log_group: Option<&str>)
        ensures
            match log_group {
                Some(t) => first_text(self@.blocks, BlockId::LogGroup) == Some(t@),
                None => first_text(self@.blocks, BlockId::LogGroup) is None,
            },
    {
        self.text_of(BlockId::LogGroup)
    }

    /// The log line shown in the alert: the text of its message block.
    pub fn get_message(&self) -> (message: Option<&str>)
        ensures
            match message {
                Some(t) => first_text(self@.blocks, BlockId::Message) == Some(t@),
                None => first_text(self@.blocks, BlockId::Message) is None,
            },
    {
        self.text_of(BlockId::Message)
    }
}

/// The chosen option of the notification select: whether a notification is wanted.
#[derive(Debug, Clone, PartialEq)]
pub struct SelectedOption {
    pub value: bool,
}

/// The state of the notification select of the feedback form.
#[derive(Debug, Clone, PartialEq)]
pub struct NeedsNotification {
    pub selected_option: SelectedOption,
}

/// The state of the reason input of the feedback form.
#[derive(Debug, Clone, PartialEq)]
pub struct Reason {
    pub value: Option<String>,
}

/// The state of one input of the feedback form.
#[derive(Debug, Clone, PartialEq)]
pub enum Input {
    NeedsNotification(NeedsNotification),
    Reason(Reason),
}

/// The state of an input as a mathematical value.
pub enum InputView {
    NeedsNotification(bool),
    Reason(Option<Seq<char>>),
}

impl View for Input {
    type V = InputView;

    open spec fn view(&self) -> InputView {
        match self {
            Input::NeedsNotification(n) => InputView::NeedsNotification(n.selected_option.value),
            Input::Reason(r) => InputView::Reason(
                match r.value {
                    Some(t) => Some(t@),
                    None => None,
                },
            ),
        }
    }
}

/// The inputs of a submitted form, each under the identifier of its block.
/// A form that was read from text holds no two inputs under the same key; in
/// any other, the first input under a key is the one that counts.
#[derive(Debug, Clone, PartialEq)]
pub struct State {
    pub values: Vec<(String, Input)>,
}

/// The views of a run of inputs.
pub open spec fn values_view(values: Seq<(String, Input)>) -> Seq<(Seq<char>, InputView)> {
    Seq::new(values.len(), |i: int| (values[i].0@, values[i].1@))
}

/// The first input among `values` that stands under `key`.
pub open spec fn value_under(values: Seq<(Seq<char>, InputView)>, key: Seq<char>) -> Option<
    InputView,
>
    decreases values.len(),
{
    if values.len() == 0 {
        None
    } else if values[0].0 == key {
        Some(values[0].1)
    } else {
        value_under(values.drop_first(), key)
    }
}

/// A submitted form.
#[derive(Debug, Clone, PartialEq)]
pub struct ModalView {
    pub state: State,
    pub private_metadata: String,
}

/// The submission of the feedback form.
#[derive(Debug, Clone, PartialEq)]
pub struct ViewSubmission {
    pub view: ModalView,
}

pub struct ViewSubmissionView {
    pub private_metadata: Seq<char>,
    pub values: Seq<(Seq<char>, InputView)>,
}

impl View for ViewSubmission {
    type V = ViewSubmissionView;

    open spec fn view(&self) -> ViewSubmissionView {
        ViewSubmissionView {
            private_metadata: self.view.private_metadata@,
            values: values_view(self.view.state.values@),
        }
    }
}

/// Why the answers of a submitted form cannot be read.
#[derive(Debug, Clone, Copy, PartialEq, Eq, Structural)]
pub enum ModalError {
    /// No notification select stands under `needs_notification`.
    NeedsNotificationNotFound,
    /// No reason input stands under `reason`.
    ReasonNotFound,
}

/// The answers a form holds: the notification choice of the select under
/// `needs_notification` and the text of the input under `reason`.
pub open spec fn modal_values(values: Seq<(Seq<char>, InputView)>) -> Result<
    (bool, Option<Seq<char>>),
    ModalError,
> {
    match value_under(values, "needs_notification"@) {
        Some(InputView::NeedsNotification(needed)) => match value_under(values, "reason"@) {
            Some(InputView::Reason(reason)) => Ok((needed, reason)),
            _ => Err(ModalError::ReasonNotFound),
        },
        _ => Err(ModalError::NeedsNotificationNotFound),
    }
}

impl State {
    /// The first input that stands under `key`.
    pub fn get(&self, key: &str) -> (found: Option<&Input>)
        ensures
            match found {
                Some(v) => value_under(values_view(self.values@), key@) == Some(v@),
                None => value_under(values_view(self.values@), key@) is None,
            },
    {
        let ghost all = values_view(self.values@);
        assert(all.skip(0) =~= all);
        let mut i: usize = 0;
        while i < self.values.len()
            invariant
                i <= self.values.len(),
                all == values_view(self.values@),
                value_under(all, key@) == value_under(all.skip(i as int), key@),
            decreases self.values.len() - i,
        {
            let ghost rest = all.skip(i as int);
            assert(rest[0] == all[i as int]);
            assert(rest.drop_first() =~= all.skip(i + 1));
            if same_text(self.values[i].0.as_str(), key) {
                return Some(&self.values[i].1);
            }
            i += 1;
        }
        None
    }
}

impl ViewSubmission {
    pub fn get_private_metadata(&self) -> (token: &str)
        ensures
            token@ == self@.private_metadata,
    {
        self.view.private_metadata.as_str()
    }

    /// The answers given in the form.
    pub fn get_modal_values(&self) -> (answers: Result<(bool, Option<String>), ModalError>)
        ensures
            match answers {
                Ok((needed, Some(reason))) => modal_values(self@.values) == Ok::<_, ModalError>(
                    (needed, Some(reason@)),
                ),
                Ok((needed, None)) => modal_values(self@.values) == Ok::<_, ModalError>(
                    (needed, None::<Seq<char>>),
                ),
                Err(e) => modal_values(self@.values) == Err::<(bool, Option<Seq<char>>), _>(e),
            },
    {
        let needs_notification = match self.view.state.get("needs_notification") {
            Some(Input::NeedsNotification(n)) => n.selected_option.value,
            _ => {
                return Err(ModalError::NeedsNotificationNotFound);
            },
        };
        let reason = match self.view.state.get("reason") {
            Some(Input::Reason(r)) => match &r.value {
                Some(t) => Some(t.clone()),
                None => None,
            },
            _ => {
                return Err(ModalError::ReasonNotFound);
            },
        };
        Ok((needs_notification, reason))
    }
}

/// An interaction with an alert or with the feedback form.
#[derive(Debug, PartialEq)]
pub enum InteractivityPayload {
    BlockActions(BlockActions),
    ViewSubmission(ViewSubmission),
}

/// An interaction with a block of an alert.
#[derive(Debug, PartialEq)]
pub enum BlockActions {
    /// The feedback button was pressed.
    OpenModal(OpenModal),
    /// Any other interaction; the whole payload is kept as it came.
    Other(Json),
}

pub enum PayloadView {
    OpenModal(OpenModalView),
    OtherAction(JsonValue),
    ViewSubmission(ViewSubmissionView),
}

impl View for InteractivityPayload {
    type V = PayloadView;

    open spec fn view(&self) -> PayloadView {
        match self {
            InteractivityPayload::BlockActions(BlockActions::OpenModal(m)) => PayloadView::OpenModal(
                m@,
            ),
            InteractivityPayload::BlockActions(BlockActions::Other(j)) => PayloadView::OtherAction(
                j@,
            ),
            InteractivityPayload::ViewSubmission(v) => PayloadView::ViewSubmission(v@),
        }
    }
}

/// The block identifier that a name stands for.
pub open spec fn block_id_of(name: Seq<char>) -> Option<BlockId> {
    if name == "header"@ {
        Some(BlockId::Header)
    } else if name == "log_group_header"@ {
        Some(BlockId::LogGroupHeader)
    } else if name == "message_header"@ {
        Some(BlockId::MessageHeader)
    } else if name == "log_group"@ {
        Some(BlockId::LogGroup)
    } else if name == "message"@ {
        Some(BlockId::Message)
    } else if name == "divider"@ {
        Some(BlockId::Divider)
    } else if name == "feedback_button"@ {
        Some(BlockId::FeedbackButton)
    } else {
        None
    }
}

/// The block that a JSON document holds: its `block_id` is one of the known
/// names; its `text`, where it is there and not null, is an object whose
/// `text` is a string.
pub open spec fn document_block(document: JsonValue) -> Option<BlockView> {
    match document.field("block_id"@) {
        Some(JsonValue::Text(name)) => match block_id_of(name) {
            Some(block_id) => match document.field("text"@) {
                None | Some(JsonValue::Null) => Some(BlockView { block_id, text: None }),
                Some(text) => match text.field("text"@) {
                    Some(JsonValue::Text(value)) => Some(BlockView { block_id, text: Some(value) }),
                    _ => None,
                },
            },
            None => None,
        },
        _ => None,
    }
}

/// The blocks that a run of JSON documents holds, if each of them is a block.
pub open spec fn document_blocks(items: Seq<JsonValue>) -> Option<Seq<BlockView>> {
    if forall|i: int| 0 <= i < items.len() ==> document_block(#[trigger] items[i]) is Some {
        Some(Seq::new(items.len(), |i: int| document_block(items[i])->0))
    } else {
        None
    }
}

/// The press of the feedback button that a JSON document holds: `trigger_id`
/// is a string, and `message` has a string `ts` and a list `blocks` of blocks.
pub open spec fn document_open_modal(document: JsonValue) -> Option<OpenModalView> {
    match (document.field("trigger_id"@), document.field("message"@)) {
        (Some(JsonValue::Text(trigger_id)), Some(message)) => match (
            message.field("ts"@),
            message.field("blocks"@),
        ) {
            (Some(JsonValue::Text(ts)), Some(JsonValue::List(items))) => match document_blocks(
                items,
            ) {
                Some(blocks) => Some(OpenModalView { trigger_id, ts, blocks }),
                None => None,
            },
            _ => None,
        },
        _ => None,
    }
}

/// The state of an input that a JSON document holds. The document is an
/// object with one member, named after the kind of the input. Under
/// `needs_notification` stands a select whose `selected_option` has the
/// `value` "true" or "false". Under `reason` stands an input whose `value` is
/// a string, or is null or missing.
pub open spec fn document_input(document: JsonValue) -> Option<InputView> {
    match document {
        JsonValue::Object(members) => if members.len() != 1 {
            None
        } else if members[0].0 == "needs_notification"@ {
            match members[0].1.field("selected_option"@) {
                Some(option) => match option.field("value"@) {
                    Some(JsonValue::Text(value)) => match text_bool(value) {
                        Some(needed) => Some(InputView::NeedsNotification(needed)),
                        None => None,
                    },
                    _ => None,
                },
                None => None,
            }
        } else if members[0].0 == "reason"@ {
            match members[0].1.field("value"@) {
                None | Some(JsonValue::Null) => Some(InputView::Reason(None)),
                Some(JsonValue::Text(reason)) => Some(InputView::Reason(Some(reason))),
                _ => None,
            }
        } else {
            None
        },
        _ => None,
    }
}

/// The inputs that the members of an object hold, if each of them is an input.
pub open spec fn document_inputs(members: Seq<(Seq<char>, JsonValue)>) -> Option<
    Seq<(Seq<char>, InputView)>,
> {
    if forall|i: int| 0 <= i < members.len() ==> document_input((#[trigger] members[i]).1) is Some {
        Some(Seq::new(members.len(), |i: int| (members[i].0, document_input(members[i].1)->0)))
    } else {
        None
    }
}

/// The form submission that a JSON document holds: `view` has a string
/// `private_metadata` and a `state` whose `values` is an object of inputs.
pub open spec fn document_view_submission(document: JsonValue) -> Option<ViewSubmissionView> {
    match document.field("view"@) {
        Some(view) => match (view.field("state"@), view.field("private_metadata"@)) {
            (Some(state), Some(JsonValue::Text(private_metadata))) => match state.field(
                "values"@,
            ) {
                Some(JsonValue::Object(members)) => match document_inputs(members) {
                    Some(values) => Some(ViewSubmissionView { private_metadata, values }),
                    None => None,
                },
                _ => None,
            },
            _ => None,
        },
        None => None,
    }
}

/// The interaction that a JSON document holds. Its `type` tells the kind. A
/// `block_actions` document is the press of the feedback button where it reads
/// as one, and some other interaction where it does not. A `view_submission`
/// document has to read as a form submission. Any other document holds no
/// interaction.
pub open spec fn document_payload(document: JsonValue) -> Option<PayloadView> {
    match document.field("type"@) {
        Some(JsonValue::Text(kind)) => if kind == "block_actions"@ {
            match document_open_modal(document) {
                Some(open) => Some(PayloadView::OpenModal(open)),
                None => Some(PayloadView::OtherAction(document)),
            }
        } else if kind == "view_submission"@ {
            match document_view_submission(document) {
                Some(submission) => Some(PayloadView::ViewSubmission(submission)),
                None => None,
            }
        } else {
            None
        },
        _ => None,
    }
}

impl BlockId {
    /// The block identifier that a name stands for.
    pub fn from_name(name: &str) -> (id: Option<BlockId>)
        ensures
            id == block_id_of(name@),
    {
        if same_text(name, "header") {
            Some(BlockId::Header)
        } else if same_text(name, "log_group_header") {
            Some(BlockId::LogGroupHeader)
        } else if same_text(name, "message_header") {
            Some(BlockId::MessageHeader)
        } else if same_text(name, "log_group") {
            Some(BlockId::LogGroup)
        } else if same_text(name, "message") {
            Some(BlockId::Message)
        } else if same_text(name, "divider") {
            Some(BlockId::Divider)
        } else if same_text(name, "feedback_button") {
            Some(BlockId::FeedbackButton)
        } else {
            None
        }
    }
}

impl Block {
    /// The block that a JSON document holds.
    pub fn from_json(document: &Json) -> (block: Option<Block>)
        ensures
            match block {
                Some(b) => document_block(document@) == Some(b@),
                None => document_block(document@) is None,
            },
    {
        let name = match document.get("block_id") {
            Some(j) => match j.as_str() {
                Some(name) => name,
                None => {
                    return None;
                },
            },
            None => {
                return None;
            },
        };
        let block_id = match BlockId::from_name(name) {
            Some(id) => id,
            None => {
                return None;
            },
        };
        let text = match document.get("text") {
            None => None,
            Some(t) => if t.is_null() {
                None
            } else {
                match t.get("text") {
                    Some(v) => match v.as_str() {
                        Some(value) => Some(Text { value: value.to_owned() }),
                        None => {
                            return None;
                        },
                    },
                    None => {
                        return None;
                    },
                }
            },
        };
        Some(Block { block_id, text })
    }
}

impl OpenModal {
    /// The press of the feedback button that a JSON document holds.
    #[verifier::loop_isolation(false)]
    pub fn from_json(document: &Json) -> (open: Option<OpenModal>)
        ensures
            match open {
                Some(m) => document_open_modal(document@) == Some(m@),
                None => document_open_modal(document@) is None,
            },
    {
        let trigger_id = match document.get("trigger_id") {
            Some(j) => match j.as_str() {
                Some(id) => id,
                None => {
                    return None;
                },
            },
            None => {
                return None;
            },
        };
        let message = match document.get("message") {
            Some(message) => message,
            None => {
                return None;
            },
        };
        let ts = match message.get("ts") {
            Some(j) => match j.as_str() {
                Some(ts) => ts,
                None => {
                    return None;
                },
            },
            None => {
                return None;
            },
        };
        let items = match message.get("blocks") {
            Some(j) => match j.as_list() {
                Some(items) => items,
                None => {
                    return None;
                },
            },
            None => {
                return None;
            },
        };
        let ghost all = list_view(items@);
        let mut blocks: Vec<Block> = Vec::new();
        let mut i: usize = 0;
        while i < items.len()
            invariant
                i <= items.len(),
                all == list_view(items@),
                blocks.len() == i,
                forall|k: int| 0 <= k < i ==> document_block(#[trigger] all[k]) == Some(blocks@[k]@),
            decreases items.len() - i,
        {
            match Block::from_json(&items[i]) {
                Some(block) => {
                    blocks.push(block);
                },
                None => {
                    assert(document_block(all[i as int]) is None);
                    return None;
                },
            }
            i += 1;
        }
        assert(document_blocks(all) == Some(blocks_view(blocks@))) by {
            assert(document_blocks(all)->0 =~= blocks_view(blocks@));
        }
        Some(
            OpenModal {
                trigger_id: trigger_id.to_owned(),
                message: Message { ts: ts.to_owned(), blocks },
            },
        )
    }
}

impl Input {
    /// The state of an input that a JSON document holds.
    pub fn from_json(document: &Json) -> (input: Option<Input>)
        ensures
            match input {
                Some(v) => document_input(document@) == Some(v@),
                None => document_input(document@) is None,
            },
    {
        let members = match document.as_object() {
            Some(members) => members,
            None => {
                return None;
            },
        };
        if members.len() != 1 {
            return None;
        }
        let member = &members[0];
        assert(members_view(members@)[0] == member.pair());
        if same_text(member.name.as_str(), "needs_notification") {
            let option = match member.value.get("selected_option") {
                Some(option) => option,
                None => {
                    return None;
                },
            };
            let value = match option.get("value") {
                Some(j) => match j.as_str() {
                    Some(value) => value,
                    None => {
                        return None;
                    },
                },
                None => {
                    return None;
                },
            };
            match deserialize_bool(value) {
                Some(needed) => Some(
                    Input::NeedsNotification(
                        NeedsNotification { selected_option: SelectedOption { value: needed } },
                    ),
                ),
                None => None,
            }
        } else if same_text(member.name.as_str(), "reason") {
            match member.value.get("value") {
                None => Some(Input::Reason(Reason { value: None })),
                Some(j) => match j.as_str() {
                    Some(reason) => Some(Input::Reason(Reason { value: Some(reason.to_owned()) })),
                    None => if j.is_null() {
                        Some(Input::Reason(Reason { value: None }))
                    } else {
                        None
                    },
                },
            }
        } else {
            None
        }
    }
}

impl ViewSubmission {
    /// The form submission that a JSON document holds.
    #[verifier::loop_isolation(false)]
    pub fn from_json(document: &Json) -> (submission: Option<ViewSubmission>)
        ensures
            match submission {
                Some(v) => document_view_submission(document@) == Some(v@),
                None => document_view_submission(document@) is None,
            },
            document@.unambiguous() ==> (submission matches Some(v) ==> distinct_keys(v@.values)),
    {
        let view = match document.get("view") {
            Some(view) => view,
            None => {
                return None;
            },
        };
        let state = match view.get("state") {
            Some(state) => state,
            None => {
                return None;
            },
        };
        let private_metadata = match view.get("private_metadata") {
            Some(j) => match j.as_str() {
                Some(token) => token,
                None => {
                    return None;
                },
            },
            None => {
                return None;
            },
        };
        let members = match state.get("values") {
            Some(j) => match j.as_object() {
                Some(members) => members,
                None => {
                    return None;
                },
            },
            None => {
                return None;
            },
        };
        let ghost all = members_view(members@);
        let mut values: Vec<(String, Input)> = Vec::new();
        let mut i: usize = 0;
        while i < members.len()
            invariant
                i <= members.len(),
                all == members_view(members@),
                values.len() == i,
                forall|k: int|
                    0 <= k < i ==> document_input((#[trigger] all[k]).1) == Some(values@[k].1@)
                        && values@[k].0@ == all[k].0,
            decreases members.len() - i,
        {
            let member = &members[i];
            assert(all[i as int] == member.pair());
            match Input::from_json(&member.value) {
                Some(input) => {
                    values.push((member.name.clone(), input));
                },
                None => {
                    assert(document_input(all[i as int].1) is None);
                    return None;
                },
            }
            i += 1;
        }
        assert(document_inputs(all) == Some(values_view(values@))) by {
            assert(document_inputs(all)->0 =~= values_view(values@));
        }
        assert(document@.unambiguous() ==> distinct_keys(values_view(values@))) by {
            if document@.unambiguous() {
                assert(JsonValue::Object(all).unambiguous());
                assert(JsonValue::names_distinct(all));
                assert forall|i: int, j: int| 0 <= i < j < values@.len() implies (
                #[trigger] values_view(values@)[i]).0 != (#[trigger] values_view(values@)[j]).0 by {
                    assert(values_view(values@)[i].0 == all[i].0);
                    assert(values_view(values@)[j].0 == all[j].0);
                }
            }
        }
        Some(
            ViewSubmission {
                view: ModalView {
                    state: State { values },
                    private_metadata: private_metadata.to_owned(),
                },
            },
        )
    }
}

/// Why a text holds no interaction.
#[derive(Debug, Clone, Copy, PartialEq, Eq, Structural)]
pub enum PayloadError {
    /// The text is not JSON.
    NotJson,
    /// The JSON is not one of the interactions.
    Malformed,
}

/// The interaction that a text holds.
pub open spec fn text_payload(text: Seq<char>) -> Result<PayloadView, PayloadError> {
    match json_parsed(text) {
        None => Err(PayloadError::NotJson),
        Some(document) => match document_payload(document) {
            None => Err(PayloadError::Malformed),
            Some(payload) => Ok(payload),
        },
    }
}

impl InteractivityPayload {
    /// The interaction that a JSON document holds.
    pub fn from_json(document: &Json) -> (payload: Option<InteractivityPayload>)
        ensures
            match payload {
                Some(p) => document_payload(document@) == Some(p@),
                None => document_payload(document@) is None,
            },
            document@.unambiguous() ==> (payload matches Some(
                InteractivityPayload::ViewSubmission(v),
            ) ==> distinct_keys(v@.values)),
    {
        let kind = match document.get("type") {
            Some(j) => match j.as_str() {
                Some(kind) => kind,
                None => {
                    return None;
                },
            },
            None => {
                return None;
            },
        };
        if same_text(kind, "block_actions") {
            match OpenModal::from_json(document) {
                Some(open) => Some(InteractivityPayload::BlockActions(BlockActions::OpenModal(open))),
                None => Some(
                    InteractivityPayload::BlockActions(BlockActions::Other(document.clone())),
                ),
            }
        } else if same_text(kind, "view_submission") {
            match ViewSubmission::from_json(document) {
                Some(submission) => Some(InteractivityPayload::ViewSubmission(submission)),
                None => None,
            }
        } else {
            None
        }
    }

    /// Reads an interaction from the JSON text of a payload. In a form
    /// submission that was read from text, no two inputs stand under the same
    /// key.
    pub fn parse(text: &str) -> (payload: Result<InteractivityPayload, PayloadError>)
        ensures
            match payload {
                Ok(p) => text_payload(text@) == Ok::<_, PayloadError>(p@),
                Err(e) => text_payload(text@) == Err::<PayloadView, _>(e),
            },
            payload matches Ok(InteractivityPayload::ViewSubmission(v)) ==> distinct_keys(
                v@.values,
            ),
    {
        let document = match Json::parse(text) {
            Some(document) => document,
            None => {
                return Err(PayloadError::NotJson);
            },
        };
        match InteractivityPayload::from_json(&document) {
            Some(payload) => Ok(payload),
            None => Err(PayloadError::Malformed),
        }
    }
}

} // verus!
