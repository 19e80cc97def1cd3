//! The life of an alert, as the messages themselves carry it. An alert is
//! posted with a feedback button. As long as it shows the button, a press of
//! it opens the feedback form for that alert, again and again. Once feedback
//! was recorded the alert is closed: it shows a note in place of the button,
//! and nothing opens the form for it any more.

use crate::infrastructure::slack;
use crate::interface::handlers::{dispatch, DispatchView};
use crate::interface::payloads::{
    block_id_of, document_block, document_blocks, document_input, document_inputs, first_text,
    value_under, BlockId, BlockView, InputView,
};
use crate::json::{json_parsed, JsonValue};
use crate::util::text_bool;
use vstd::prelude::*;

verus! {

/// The member names and block names of an alert that have to be told apart
/// differ from one another.
proof fn lemma_alert_names_differ()
    ensures
        "type"@ != "block_id"@,
        "type"@ != "text"@,
        "block_id"@ != "text"@,
        "log_group_header"@ != "header"@,
        "log_group"@ != "header"@,
        "log_group"@ != "log_group_header"@,
        "log_group"@ != "message_header"@,
        "message_header"@ != "header"@,
        "message_header"@ != "log_group_header"@,
        "message"@ != "header"@,
        "message"@ != "log_group_header"@,
        "message"@ != "message_header"@,
        "message"@ != "log_group"@,
        "divider"@ != "header"@,
        "divider"@ != "log_group_header"@,
        "divider"@ != "message_header"@,
        "divider"@ != "log_group"@,
        "divider"@ != "message"@,
        "feedback_button"@ != "header"@,
        "feedback_button"@ != "log_group_header"@,
        "feedback_button"@ != "message_header"@,
        "feedback_button"@ != "log_group"@,
        "feedback_button"@ != "message"@,
        "feedback_button"@ != "divider"@,
{
    reveal_strlit("type");
    reveal_strlit("block_id");
    reveal_strlit("text");
    reveal_strlit("header");
    reveal_strlit("log_group_header");
    reveal_strlit("message_header");
    reveal_strlit("log_group");
    reveal_strlit("message");
    reveal_strlit("divider");
    reveal_strlit("feedback_button");
    assert("type"@.len() == 4 && "text"@.len() == 4 && "block_id"@.len() == 8);
    assert("type"@[1] == 'y' && "text"@[1] == 'e');
    assert("header"@.len() == 6 && "log_group_header"@.len() == 16);
    assert("message_header"@.len() == 14 && "log_group"@.len() == 9);
    assert("message"@.len() == 7 && "divider"@.len() == 7 && "feedback_button"@.len() == 15);
    assert("message"@[0] == 'm' && "divider"@[0] == 'd');
}

/// A block of an alert that has a name and a plain or marked-up text reads
/// as a block of that name with that text.
proof fn lemma_named_block_reads_back(kind: Seq<char>, name: Seq<char>, text: JsonValue, value: Seq<char>)
    requires
        block_id_of(name) is Some,
        text.field("text"@) == Some(JsonValue::Text(value)),
    ensures
        document_block(
            JsonValue::object().with("type"@, JsonValue::text(kind)).with(
                "block_id"@,
                JsonValue::text(name),
            ).with("text"@, text),
        ) == Some(BlockView { block_id: block_id_of(name)->0, text: Some(value) }),
{
    lemma_alert_names_differ();
    reveal_with_fuel(JsonValue::lookup, 4);
    let block = JsonValue::object().with("type"@, JsonValue::text(kind)).with(
        "block_id"@,
        JsonValue::text(name),
    ).with("text"@, text);
    let members = block->Object_0;
    assert(members.len() == 3);
    assert(members.drop_first()[0] == members[1]);
    assert(members.drop_first().drop_first()[0] == members[2]);
    assert(block.field("block_id"@) == Some(JsonValue::Text(name)));
    assert(block.field("text"@) == Some(text));
    assert(!(text is Null));
}

/// A block of an alert that has a name and nothing to show reads as a block
/// of that name without a text.
proof fn lemma_bare_block_reads_back(kind: Seq<char>, name: Seq<char>, more: Seq<(Seq<char>, JsonValue)>)
    requires
        block_id_of(name) is Some,
        JsonValue::lookup(more, "text"@) is None,
    ensures
        document_block(
            JsonValue::Object(
                JsonValue::object().with("type"@, JsonValue::text(kind)).with(
                    "block_id"@,
                    JsonValue::text(name),
                )->Object_0 + more,
            ),
        ) == Some(BlockView { block_id: block_id_of(name)->0, text: None }),
{
    lemma_alert_names_differ();
    reveal_with_fuel(JsonValue::lookup, 4);
    let head = JsonValue::object().with("type"@, JsonValue::text(kind)).with(
        "block_id"@,
        JsonValue::text(name),
    )->Object_0;
    let members = head + more;
    assert(members[0] == head[0]);
    assert(members.drop_first()[0] == head[1]);
    assert(members.drop_first().drop_first() =~= more);
}

/// A text object, plain or marked up, has its text under `text`.
proof fn lemma_text_object_has_its_text(kind: Seq<char>, value: Seq<char>, more: Seq<(Seq<char>, JsonValue)>)
    ensures
        JsonValue::Object(
            JsonValue::object().with("type"@, JsonValue::text(kind)).with(
                "text"@,
                JsonValue::text(value),
            )->Object_0 + more,
        ).field("text"@) == Some(JsonValue::Text(value)),
{
    lemma_alert_names_differ();
    reveal_with_fuel(JsonValue::lookup, 3);
    let head = JsonValue::object().with("type"@, JsonValue::text(kind)).with(
        "text"@,
        JsonValue::text(value),
    )->Object_0;
    let members = head + more;
    assert(members[0] == head[0]);
    assert(members.drop_first()[0] == head[1]);
}

/// The blocks that a posted alert for `message` of `log_group` shows.
pub open spec fn posted_blocks(log_group: Seq<char>, message: Seq<char>) -> Seq<JsonValue> {
    slack::base_alert_message(log_group, message).and(slack::feedback_button())->List_0
}

/// What is posted can be read back. The blocks of a posted alert read as
/// blocks, and the log group and the log line that the handler takes from
/// them, when the feedback button under the alert is pressed, are the ones the
/// alert was posted for.
pub proof fn lemma_posted_alert_reads_back(log_group: Seq<char>, message: Seq<char>)
    ensures
        document_blocks(posted_blocks(log_group, message)) matches Some(blocks)
            && first_text(blocks, BlockId::LogGroup) == Some(log_group)
            && first_text(blocks, BlockId::Message) == Some(message),
{
    lemma_alert_names_differ();
    let items = posted_blocks(log_group, message);
    assert(items.len() == 7);
    let none = Seq::<(Seq<char>, JsonValue)>::empty();

    let title = ":rotating_light: エラーが発生しました :rotating_light:"@;
    let title_text = slack::plain_text(title).with("emoji"@, JsonValue::Bool(true));
    assert(title_text.field("text"@) == Some(JsonValue::Text(title))) by {
        let more = none.push(("emoji"@, JsonValue::Bool(true)));
        lemma_text_object_has_its_text("plain_text"@, title, more);
        assert(title_text->Object_0 =~= slack::plain_text(title)->Object_0 + more);
    }
    assert(document_block(items[0]) == Some(
        BlockView { block_id: BlockId::Header, text: Some(title) },
    )) by {
        lemma_named_block_reads_back("header"@, "header"@, title_text, title);
    }

    let group_heading = "*CloudWatch Logs ロググループ*"@;
    assert(document_block(items[1]) == Some(
        BlockView { block_id: BlockId::LogGroupHeader, text: Some(group_heading) },
    )) by {
        lemma_text_object_has_its_text("mrkdwn"@, group_heading, none);
        assert(slack::mrkdwn(group_heading)->Object_0 + none =~= slack::mrkdwn(
            group_heading,
        )->Object_0);
        lemma_named_block_reads_back(
            "section"@,
            "log_group_header"@,
            slack::mrkdwn(group_heading),
            group_heading,
        );
    }

    assert(document_block(items[2]) == Some(
        BlockView { block_id: BlockId::LogGroup, text: Some(log_group) },
    )) by {
        lemma_text_object_has_its_text("plain_text"@, log_group, none);
        assert(slack::plain_text(log_group)->Object_0 + none =~= slack::plain_text(
            log_group,
        )->Object_0);
        lemma_named_block_reads_back(
            "section"@,
            "log_group"@,
            slack::plain_text(log_group),
            log_group,
        );
    }

    let line_heading = "*ログメッセージ*"@;
    assert(document_block(items[3]) == Some(
        BlockView { block_id: BlockId::MessageHeader, text: Some(line_heading) },
    )) by {
        lemma_text_object_has_its_text("mrkdwn"@, line_heading, none);
        assert(slack::mrkdwn(line_heading)->Object_0 + none =~= slack::mrkdwn(
            line_heading,
        )->Object_0);
        lemma_named_block_reads_back(
            "section"@,
            "message_header"@,
            slack::mrkdwn(line_heading),
            line_heading,
        );
    }

    assert(document_block(items[4]) == Some(
        BlockView { block_id: BlockId::Message, text: Some(message) },
    )) by {
        lemma_text_object_has_its_text("plain_text"@, message, none);
        assert(slack::plain_text(message)->Object_0 + none =~= slack::plain_text(
            message,
        )->Object_0);
        lemma_named_block_reads_back("section"@, "message"@, slack::plain_text(message), message);
    }

    assert(document_block(items[5]) == Some(BlockView { block_id: BlockId::Divider, text: None }))
        by {
        lemma_bare_block_reads_back("divider"@, "divider"@, none);
        assert(items[5]->Object_0 =~= items[5]->Object_0 + none);
    }

    assert(document_block(items[6]) == Some(
        BlockView { block_id: BlockId::FeedbackButton, text: None },
    )) by {
        reveal_strlit("elements");
        reveal_strlit("text");
        assert("elements"@.len() == 8 && "text"@.len() == 4);
        let elements = slack::feedback_button()->Object_0[2];
        let more = none.push(elements);
        assert(more.drop_first() =~= none);
        lemma_bare_block_reads_back("actions"@, "feedback_button"@, more);
        assert(items[6]->Object_0 =~= JsonValue::object().with(
            "type"@,
            JsonValue::text("actions"@),
        ).with("block_id"@, JsonValue::text("feedback_button"@))->Object_0 + more);
    }

    let blocks = document_blocks(items)->0;
    assert(document_blocks(items) is Some);
    reveal_with_fuel(first_text, 6);
    assert(blocks.drop_first()[0] == blocks[1]);
    assert(blocks.drop_first().drop_first()[0] == blocks[2]);
    assert(blocks.drop_first().drop_first().drop_first()[0] == blocks[3]);
    assert(blocks.drop_first().drop_first().drop_first().drop_first()[0] == blocks[4]);
}

/// The loop closes. A press of the feedback button, in a payload that names
/// its trigger and carries the message of a posted alert with the time it was
/// posted at, has the handler open the form for exactly that alert.
pub proof fn lemma_button_press_opens_the_form_of_its_alert(
    text: Seq<char>,
    payload: JsonValue,
    posted: JsonValue,
    trigger_id: Seq<char>,
    ts: Seq<char>,
    log_group: Seq<char>,
    message: Seq<char>,
)
    requires
        json_parsed(text) == Some(payload),
        payload.field("type"@) == Some(JsonValue::Text("block_actions"@)),
        payload.field("trigger_id"@) == Some(JsonValue::Text(trigger_id)),
        payload.field("message"@) == Some(posted),
        posted.field("ts"@) == Some(JsonValue::Text(ts)),
        posted.field("blocks"@) == Some(JsonValue::List(posted_blocks(log_group, message))),
    ensures
        dispatch(Some(text)) == (DispatchView::OpenModal { trigger_id, ts, log_group, message }),
{
    lemma_posted_alert_reads_back(log_group, message);
}

/// The feedback form carries its token in its private metadata.
pub proof fn lemma_form_carries_its_token(token: Seq<char>)
    ensures
        slack::feedback_view(token).field("private_metadata"@) == Some(JsonValue::Text(token)),
{
    reveal_strlit("type");
    reveal_strlit("callback_id");
    reveal_strlit("private_metadata");
    assert("type"@.len() == 4 && "callback_id"@.len() == 11 && "private_metadata"@.len() == 16);
    reveal_with_fuel(JsonValue::lookup, 4);
    let members = slack::feedback_view(token)->Object_0;
    assert(members.drop_first()[0] == members[1]);
    assert(members.drop_first().drop_first()[0] == members[2]);
}

/// A submitted form has its feedback recorded. A submission that carries
/// the token of the form, the choice of the notification select under
/// `needs_notification` and the text of the reason input under `reason`, has
/// the handler record exactly that choice and that reason under that token.
pub proof fn lemma_submitted_form_is_recorded(
    text: Seq<char>,
    payload: JsonValue,
    view: JsonValue,
    state: JsonValue,
    select: JsonValue,
    option: JsonValue,
    input: JsonValue,
    token: Seq<char>,
    choice: Seq<char>,
    needs_notification: bool,
    reason: Seq<char>,
)
    requires
        json_parsed(text) == Some(payload),
        payload.field("type"@) == Some(JsonValue::Text("view_submission"@)),
        payload.field("view"@) == Some(view),
        view.field("private_metadata"@) == Some(JsonValue::Text(token)),
        view.field("state"@) == Some(state),
        state.field("values"@) == Some(
            JsonValue::object().with(
                "needs_notification"@,
                JsonValue::object().with("needs_notification"@, select),
            ).with("reason"@, JsonValue::object().with("reason"@, input)),
        ),
        select.field("selected_option"@) == Some(option),
        option.field("value"@) == Some(JsonValue::Text(choice)),
        text_bool(choice) == Some(needs_notification),
        input.field("value"@) == Some(JsonValue::Text(reason)),
    ensures
        dispatch(Some(text)) == (DispatchView::AddFeedback {
            private_metadata: token,
            needs_notification,
            reason: Some(reason),
        }),
{
    reveal_strlit("view_submission");
    reveal_strlit("block_actions");
    reveal_strlit("needs_notification");
    reveal_strlit("reason");
    assert("view_submission"@.len() == 15 && "block_actions"@.len() == 13);
    assert("needs_notification"@.len() == 18 && "reason"@.len() == 6);
    reveal_with_fuel(JsonValue::lookup, 3);
    reveal_with_fuel(value_under, 3);
    let members = state.field("values"@)->0->Object_0;
    assert(members.len() == 2);
    let chosen = document_input(members[0].1);
    let given = document_input(members[1].1);
    assert(chosen == Some(InputView::NeedsNotification(needs_notification)));
    assert(given == Some(InputView::Reason(Some(reason))));
    let values = document_inputs(members);
    assert(values is Some);
    assert(values->0.len() == 2);
    assert(values->0[0] == ("needs_notification"@, chosen->0));
    assert(values->0[1] == ("reason"@, given->0));
    assert(values->0.drop_first()[0] == values->0[1]);
}

/// The blocks that a closed alert for `message` of `log_group` shows.
pub open spec fn closed_blocks(log_group: Seq<char>, message: Seq<char>) -> Seq<JsonValue> {
    slack::base_alert_message(log_group, message).and(slack::feedback_received())->List_0
}

/// A closed alert stays closed. Its blocks do not read as the blocks of an
/// alert any more, so no interaction with it opens the feedback form again.
pub proof fn lemma_closed_alert_offers_no_form(log_group: Seq<char>, message: Seq<char>)
    ensures
        document_blocks(closed_blocks(log_group, message)) is None,
{
    lemma_alert_names_differ();
    reveal_with_fuel(JsonValue::lookup, 3);
    let items = closed_blocks(log_group, message);
    assert(items.len() == 7);
    let note = items[6];
    let members = note->Object_0;
    assert(members.len() == 2);
    assert(members.drop_first()[0] == members[1]);
    assert(members.drop_first().drop_first() =~= Seq::empty());
    assert(note.field("block_id"@) is None);
    assert(document_block(items[6]) is None);
}

} // verus!
