use lambda::interface::handlers::{add_feedback_handler, respond, Dispatch};
use lambda::interface::payloads::{
    Block, BlockActions, BlockId, Input, InteractivityPayload, Message, ModalError, ModalView,
    NeedsNotification, OpenModal, PayloadError, Reason, SelectedOption, State, Text,
    ViewSubmission,
};
use lambda::interface::status::StatusCode;
use lambda::json::Json;
use lambda::util::deserialize_bool;

const BUTTON_PRESS: &str = r#"{
  "type": "block_actions",
  "user": {"id": "U1", "username": "someone"},
  "api_app_id": "A1",
  "trigger_id": "12321423423.333649436676.d8c1bb837935619ccad0f624c448ffb3",
  "container": {"type": "message", "message_ts": "1548261231.000200", "is_ephemeral": false},
  "message": {
    "type": "message",
    "ts": "1548261231.000200",
    "blocks": [
      {"type": "header", "block_id": "header", "text": {"type": "plain_text", "text": "alert", "emoji": true}},
      {"type": "section", "block_id": "log_group_header", "text": {"type": "mrkdwn", "text": "*group*", "verbatim": false}},
      {"type": "section", "block_id": "log_group", "text": {"type": "plain_text", "text": "/svc/a", "emoji": true}},
      {"type": "section", "block_id": "message_header", "text": {"type": "mrkdwn", "text": "*line*"}},
      {"type": "section", "block_id": "message", "text": {"type": "plain_text", "text": "OOM killed"}},
      {"type": "divider", "block_id": "divider"},
      {"type": "actions", "block_id": "feedback_button", "elements": [{"type": "button", "action_id": "open_modal"}]}
    ]
  },
  "actions": [{"action_id": "open_modal", "block_id": "feedback_button", "value": "send_feedback", "action_ts": "1548426417.840180"}]
}"#;

const SUBMISSION: &str = r#"{
  "type": "view_submission",
  "team": {"id": "T1"},
  "view": {
    "id": "V1",
    "type": "modal",
    "private_metadata": "the-token",
    "callback_id": "send_feedback",
    "state": {
      "values": {
        "needs_notification": {"needs_notification": {"type": "static_select", "selected_option": {"text": {"type": "plain_text", "text": "x"}, "value": "false"}}},
        "reason": {"reason": {"type": "plain_text_input", "value": "known flaky test"}}
      }
    }
  }
}"#;

fn block(block_id: BlockId, text: Option<&str>) -> Block {
    Block { block_id, text: text.map(|t| Text { value: t.to_string() }) }
}

fn open_modal(blocks: Vec<Block>) -> OpenModal {
    OpenModal {
        trigger_id: "trigger".to_string(),
        message: Message { ts: "1.2".to_string(), blocks },
    }
}

fn submission(values: Vec<(&str, Input)>) -> ViewSubmission {
    ViewSubmission {
        view: ModalView {
            state: State {
                values: values.into_iter().map(|(k, v)| (k.to_string(), v)).collect(),
            },
            private_metadata: "token".to_string(),
        },
    }
}

fn needs(value: bool) -> Input {
    Input::NeedsNotification(NeedsNotification { selected_option: SelectedOption { value } })
}

fn reason(value: Option<&str>) -> Input {
    Input::Reason(Reason { value: value.map(|v| v.to_string()) })
}

#[test]
fn a_button_press_is_read() {
    let payload = InteractivityPayload::parse(BUTTON_PRESS).unwrap();
    let InteractivityPayload::BlockActions(BlockActions::OpenModal(open)) = payload else {
        panic!("not a button press");
    };
    assert_eq!(
        open.trigger_id(),
        "12321423423.333649436676.d8c1bb837935619ccad0f624c448ffb3"
    );
    assert_eq!(open.get_ts(), "1548261231.000200");
    assert_eq!(open.get_log_group(), Some("/svc/a"));
    assert_eq!(open.get_message(), Some("OOM killed"));
    assert_eq!(open.message.blocks.len(), 7);
    assert_eq!(open.message.blocks[5], block(BlockId::Divider, None));
    assert_eq!(open.message.blocks[6], block(BlockId::FeedbackButton, None));
    assert_eq!(open.message.blocks[0], block(BlockId::Header, Some("alert")));
}

#[test]
fn a_submission_is_read() {
    let payload = InteractivityPayload::parse(SUBMISSION).unwrap();
    let InteractivityPayload::ViewSubmission(submitted) = payload else {
        panic!("not a submission");
    };
    assert_eq!(submitted.get_private_metadata(), "the-token");
    assert_eq!(
        submitted.get_modal_values(),
        Ok((false, Some("known flaky test".to_string())))
    );
    assert_eq!(
        submitted,
        ViewSubmission {
            view: ModalView {
                state: State {
                    values: vec![
                        ("needs_notification".to_string(), needs(false)),
                        ("reason".to_string(), reason(Some("known flaky test"))),
                    ],
                },
                private_metadata: "the-token".to_string(),
            },
        }
    );
}

#[test]
fn any_other_block_action_is_kept_as_it_came() {
    let text = r#"{"type":"block_actions","actions":[{"action_id":"something"}]}"#;
    let payload = InteractivityPayload::parse(text).unwrap();
    assert_eq!(
        payload,
        InteractivityPayload::BlockActions(BlockActions::Other(Json::parse(text).unwrap()))
    );
    let unknown_block = BUTTON_PRESS.replace("\"block_id\": \"divider\"", "\"block_id\": \"xYz\"");
    assert!(matches!(
        InteractivityPayload::parse(&unknown_block),
        Ok(InteractivityPayload::BlockActions(BlockActions::Other(_)))
    ));
    let no_trigger = BUTTON_PRESS.replace("\"trigger_id\"", "\"trigger\"");
    assert!(matches!(
        InteractivityPayload::parse(&no_trigger),
        Ok(InteractivityPayload::BlockActions(BlockActions::Other(_)))
    ));
}

#[test]
fn what_is_no_interaction_is_an_error() {
    assert_eq!(InteractivityPayload::parse("{"), Err(PayloadError::NotJson));
    assert_eq!(InteractivityPayload::parse(""), Err(PayloadError::NotJson));
    for bad in [
        "{}",
        "[]",
        "null",
        r#"{"type":"shortcut"}"#,
        r#"{"type":5}"#,
        r#"{"type":"view_submission"}"#,
        r#"{"type":"view_submission","view":{"private_metadata":"t"}}"#,
        r#"{"type":"view_submission","view":{"private_metadata":"t","state":{}}}"#,
        r#"{"type":"view_submission","view":{"private_metadata":"t","state":{"values":[]}}}"#,
        r#"{"type":"view_submission","view":{"private_metadata":5,"state":{"values":{}}}}"#,
        r#"{"type":"view_submission","view":{"private_metadata":"t","state":{"values":{"x":{"other":{}}}}}}"#,
        r#"{"type":"view_submission","view":{"private_metadata":"t","state":{"values":{"x":{}}}}}"#,
        r#"{"type":"view_submission","view":{"private_metadata":"t","state":{"values":{"x":{"reason":{},"needs_notification":{}}}}}}"#,
        r#"{"type":"view_submission","view":{"private_metadata":"t","state":{"values":{"x":{"reason":{"value":5}}}}}}"#,
        r#"{"type":"view_submission","view":{"private_metadata":"t","state":{"values":{"x":{"needs_notification":{"selected_option":null}}}}}}"#,
        r#"{"type":"view_submission","view":{"private_metadata":"t","state":{"values":{"x":{"needs_notification":{"selected_option":{"value":"yes"}}}}}}}"#,
        r#"{"type":"view_submission","view":{"private_metadata":"t","state":{"values":{"x":{"needs_notification":{"selected_option":{"value":true}}}}}}}"#,
    ] {
        assert_eq!(InteractivityPayload::parse(bad), Err(PayloadError::Malformed), "{}", bad);
    }
}

#[test]
fn a_form_without_inputs_and_inputs_without_a_reason_are_read() {
    let empty = r#"{"type":"view_submission","view":{"private_metadata":"t","state":{"values":{}}}}"#;
    let InteractivityPayload::ViewSubmission(v) = InteractivityPayload::parse(empty).unwrap() else {
        panic!("not a submission");
    };
    assert_eq!(v.get_modal_values(), Err(ModalError::NeedsNotificationNotFound));
    for text in [
        r#"{"reason":{"type":"plain_text_input","value":null}}"#,
        r#"{"reason":{"type":"plain_text_input"}}"#,
    ] {
        assert_eq!(Input::from_json(&Json::parse(text).unwrap()), Some(reason(None)));
    }
    let yes = r#"{"needs_notification":{"selected_option":{"value":"true"}}}"#;
    assert_eq!(Input::from_json(&Json::parse(yes).unwrap()), Some(needs(true)));
}

#[test]
fn blocks_are_read_one_by_one() {
    let read = |text: &str| Block::from_json(&Json::parse(text).unwrap());
    assert_eq!(read(r#"{"block_id":"message","text":{"text":"m"}}"#), Some(block(BlockId::Message, Some("m"))));
    assert_eq!(read(r#"{"block_id":"message","text":null}"#), Some(block(BlockId::Message, None)));
    assert_eq!(read(r#"{"block_id":"message"}"#), Some(block(BlockId::Message, None)));
    assert_eq!(read(r#"{"block_id":"message","text":{"type":"x"}}"#), None);
    assert_eq!(read(r#"{"block_id":"message","text":"m"}"#), None);
    assert_eq!(read(r#"{"block_id":"Message"}"#), None);
    assert_eq!(read(r#"{"text":{"text":"m"}}"#), None);
    let names = [
        ("header", BlockId::Header),
        ("log_group_header", BlockId::LogGroupHeader),
        ("message_header", BlockId::MessageHeader),
        ("log_group", BlockId::LogGroup),
        ("message", BlockId::Message),
        ("divider", BlockId::Divider),
        ("feedback_button", BlockId::FeedbackButton),
    ];
    for (name, id) in names {
        assert_eq!(BlockId::from_name(name), Some(id));
    }
    assert_eq!(BlockId::from_name(""), None);
    assert_eq!(BlockId::from_name("headers"), None);
}

#[test]
fn the_log_group_is_the_text_of_the_first_log_group_block_that_has_one() {
    let open = open_modal(vec![
        block(BlockId::LogGroup, None),
        block(BlockId::Message, Some("first")),
        block(BlockId::LogGroup, Some("g1")),
        block(BlockId::LogGroup, Some("g2")),
        block(BlockId::Message, Some("second")),
    ]);
    assert_eq!(open.get_log_group(), Some("g1"));
    assert_eq!(open.get_message(), Some("first"));
    assert_eq!(open.trigger_id(), "trigger");
    assert_eq!(open.get_ts(), "1.2");
    let open = open_modal(vec![block(BlockId::Header, Some("h")), block(BlockId::Message, None)]);
    assert_eq!(open.get_log_group(), None);
    assert_eq!(open.get_message(), None);
    assert_eq!(open_modal(vec![]).get_log_group(), None);
}

#[test]
fn the_answers_of_a_form() {
    assert_eq!(
        submission(vec![("needs_notification", needs(true)), ("reason", reason(None))])
            .get_modal_values(),
        Ok((true, None))
    );
    assert_eq!(
        submission(vec![("reason", reason(Some("r"))), ("needs_notification", needs(false))])
            .get_modal_values(),
        Ok((false, Some("r".to_string())))
    );
    assert_eq!(
        submission(vec![("reason", reason(Some("r")))]).get_modal_values(),
        Err(ModalError::NeedsNotificationNotFound)
    );
    assert_eq!(
        submission(vec![("needs_notification", reason(None)), ("reason", reason(None))])
            .get_modal_values(),
        Err(ModalError::NeedsNotificationNotFound)
    );
    assert_eq!(
        submission(vec![("needs_notification", needs(true))]).get_modal_values(),
        Err(ModalError::ReasonNotFound)
    );
    assert_eq!(
        submission(vec![("needs_notification", needs(true)), ("reason", needs(true))])
            .get_modal_values(),
        Err(ModalError::ReasonNotFound)
    );
    assert_eq!(submission(vec![]).get_private_metadata(), "token");
    let state = State { values: vec![("a".to_string(), needs(true)), ("a".to_string(), needs(false))] };
    assert_eq!(state.get("a"), Some(&needs(true)));
    assert_eq!(state.get("b"), None);
}

#[test]
fn a_boolean_is_read_from_its_text() {
    assert_eq!(deserialize_bool("true"), Some(true));
    assert_eq!(deserialize_bool("false"), Some(false));
    for other in ["", "True", "1", "yes", "true ", "falsee"] {
        assert_eq!(deserialize_bool(other), None);
    }
}

#[test]
fn the_handler_opens_the_form_for_a_button_press() {
    assert_eq!(
        add_feedback_handler(Some(BUTTON_PRESS)),
        Dispatch::OpenModal {
            trigger_id: "12321423423.333649436676.d8c1bb837935619ccad0f624c448ffb3".to_string(),
            ts: "1548261231.000200".to_string(),
            log_group: "/svc/a".to_string(),
            message: "OOM killed".to_string(),
        }
    );
}

#[test]
fn the_handler_records_a_submission() {
    assert_eq!(
        add_feedback_handler(Some(SUBMISSION)),
        Dispatch::AddFeedback {
            private_metadata: "the-token".to_string(),
            needs_notification: false,
            reason: Some("known flaky test".to_string()),
        }
    );
}

#[test]
fn the_handler_ignores_other_block_actions() {
    assert_eq!(
        add_feedback_handler(Some(r#"{"type":"block_actions","actions":[]}"#)),
        Dispatch::Respond(StatusCode::Success)
    );
}

#[test]
fn the_handler_answers_400_to_what_it_cannot_read() {
    let bad = Dispatch::Respond(StatusCode::BadRequest);
    assert_eq!(add_feedback_handler(None), bad);
    assert_eq!(add_feedback_handler(Some("")), bad);
    assert_eq!(add_feedback_handler(Some("{}")), bad);
    assert_eq!(add_feedback_handler(Some(r#"{"type":"view_submission"}"#)), bad);
    let no_reason = SUBMISSION.replace("\"reason\": {\"reason\"", "\"why\": {\"reason\"");
    assert_eq!(add_feedback_handler(Some(&no_reason)), bad);
    let no_choice = SUBMISSION.replace(
        "\"needs_notification\": {\"needs_notification\"",
        "\"other\": {\"needs_notification\"",
    );
    assert_eq!(add_feedback_handler(Some(&no_choice)), bad);
    let no_group = BUTTON_PRESS.replace(
        r#"{"type": "section", "block_id": "log_group", "text": {"type": "plain_text", "text": "/svc/a", "emoji": true}},"#,
        "",
    );
    assert_eq!(add_feedback_handler(Some(&no_group)), bad);
    let no_line = BUTTON_PRESS.replace(
        r#"{"type": "section", "block_id": "message", "text": {"type": "plain_text", "text": "OOM killed"}},"#,
        "",
    );
    assert_eq!(add_feedback_handler(Some(&no_line)), bad);
}

#[test]
fn the_status_after_the_work() {
    assert_eq!(respond(true), StatusCode::Success);
    assert_eq!(respond(false), StatusCode::InternalServerError);
    assert_eq!(StatusCode::Success.as_u16(), 200);
    assert_eq!(StatusCode::BadRequest.as_u16(), 400);
    assert_eq!(StatusCode::Unauthorized.as_u16(), 401);
    assert_eq!(StatusCode::InternalServerError.as_u16(), 500);
}

#[test]
fn an_input_that_is_repeated_in_the_text_is_read_once() {
    let text = r#"{"type":"view_submission","view":{"private_metadata":"t","state":{"values":{
        "needs_notification":{"needs_notification":{"selected_option":{"value":"false"}}},
        "reason":{"reason":{"value":"first"}},
        "needs_notification":{"needs_notification":{"selected_option":{"value":"true"}}}
    }}}}"#;
    let InteractivityPayload::ViewSubmission(v) = InteractivityPayload::parse(text).unwrap() else {
        panic!("not a submission");
    };
    let keys: Vec<&str> = v.view.state.values.iter().map(|(k, _)| k.as_str()).collect();
    assert_eq!(keys, vec!["needs_notification", "reason"]);
    assert_eq!(v.get_modal_values(), Ok((true, Some("first".to_string()))));
}
