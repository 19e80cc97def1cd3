use lambda::infrastructure::slack::{
    make_feedback_view, response_outcome, ApiCall, Client, RemoteApiError, Response, BASE_URL,
};
use lambda::interface::payloads::{BlockId, OpenModal};
use lambda::json::Json;

fn client() -> Client {
    Client { token: "xoxb-token".to_string() }
}

const BASE_BLOCKS: &str = r#"{"type":"header","block_id":"header","text":{"type":"plain_text","text":":rotating_light: エラーが発生しました :rotating_light:","emoji":true}},{"type":"section","block_id":"log_group_header","text":{"type":"mrkdwn","text":"*CloudWatch Logs ロググループ*"}},{"type":"section","block_id":"log_group","text":{"type":"plain_text","text":"/svc/a"}},{"type":"section","block_id":"message_header","text":{"type":"mrkdwn","text":"*ログメッセージ*"}},{"type":"section","block_id":"message","text":{"type":"plain_text","text":"OOM killed"}},{"type":"divider","block_id":"divider"}"#;

const BUTTON: &str = r#"{"type":"actions","block_id":"feedback_button","elements":[{"type":"button","text":{"type":"plain_text","text":"フィードバック"},"style":"primary","value":"send_feedback","action_id":"open_modal"}]}"#;

const NOTE: &str = r#"{"type":"section","text":{"type":"mrkdwn","text":"_フィードバック済み_"}}"#;

const VIEW: &str = r#"{"type":"modal","callback_id":"send_feedback","private_metadata":"the-token","title":{"type":"plain_text","text":"フィードバック"},"blocks":[{"type":"section","block_id":"needs_notification","text":{"type":"plain_text","text":"通知が必要ですか？"},"accessory":{"type":"static_select","action_id":"needs_notification","initial_option":{"text":{"type":"plain_text","text":"不要"},"value":"false"},"options":[{"text":{"type":"plain_text","text":"不要"},"value":"false"},{"text":{"type":"plain_text","text":"必要"},"value":"true"}]}},{"type":"input","block_id":"reason","label":{"type":"plain_text","text":"理由"},"element":{"type":"plain_text_input","action_id":"reason","multiline":true},"optional":true}],"close":{"type":"plain_text","text":"キャンセル"},"submit":{"type":"plain_text","text":"送信"}}"#;

#[test]
fn the_blocks_of_every_alert() {
    let blocks = client().make_base_alert_message("/svc/a", "OOM killed");
    assert_eq!(blocks.to_text().unwrap(), format!("[{}]", BASE_BLOCKS));
    assert_eq!(blocks.as_list().unwrap().len(), 6);
}

#[test]
fn the_call_that_posts_an_alert() {
    let request = client().post_alert("C123", "/svc/a", "OOM killed");
    assert_eq!(request.url, "https://slack.com/api/chat.postMessage");
    assert_eq!(request.authorization, "Bearer xoxb-token");
    assert_eq!(
        request.body.to_text().unwrap(),
        format!(r#"{{"channel":"C123","blocks":[{},{}]}}"#, BASE_BLOCKS, BUTTON)
    );
}

#[test]
fn the_call_that_closes_an_alert() {
    let request = client().close_feedback_button("C123", "123.45", "/svc/a", "OOM killed");
    assert_eq!(request.url, "https://slack.com/api/chat.update");
    assert_eq!(request.authorization, "Bearer xoxb-token");
    assert_eq!(
        request.body.to_text().unwrap(),
        format!(r#"{{"channel":"C123","ts":"123.45","blocks":[{},{}]}}"#, BASE_BLOCKS, NOTE)
    );
}

#[test]
fn the_call_that_opens_the_form() {
    let request = client().open_modal("trigger-1", "the-token");
    assert_eq!(request.url, "https://slack.com/api/views.open");
    assert_eq!(request.url, format!("{}/views.open", BASE_URL));
    assert_eq!(request.authorization, "Bearer xoxb-token");
    assert_eq!(
        request.body.to_text().unwrap(),
        format!(r#"{{"trigger_id":"trigger-1","view":{}}}"#, VIEW)
    );
}

#[test]
fn the_feedback_form() {
    assert_eq!(make_feedback_view("the-token").to_text().unwrap(), VIEW);
    let view = make_feedback_view("");
    assert_eq!(view.get("private_metadata"), Some(&Json::text("")));
    assert_eq!(view.get("blocks").unwrap().as_list().unwrap().len(), 2);
}

#[test]
fn the_blocks_of_a_posted_alert_are_read_back_from_an_interaction() {
    for (log_group, message) in [("/svc/a", "OOM killed"), ("", ""), ("ロググループ", "a\n\"b\"")] {
        let request = client().post_alert("C123", log_group, message);
        let payload = Json::empty_object()
            .with("trigger_id", Json::text("t"))
            .with(
                "message",
                Json::empty_object()
                    .with("ts", Json::text("123.45"))
                    .with("blocks", request.body.get("blocks").unwrap().clone()),
            );
        let open = OpenModal::from_json(&payload).unwrap();
        assert_eq!(open.get_log_group(), Some(log_group));
        assert_eq!(open.get_message(), Some(message));
        let ids: Vec<BlockId> = open.message.blocks.iter().map(|b| b.block_id).collect();
        assert_eq!(
            ids,
            vec![
                BlockId::Header,
                BlockId::LogGroupHeader,
                BlockId::LogGroup,
                BlockId::MessageHeader,
                BlockId::Message,
                BlockId::Divider,
                BlockId::FeedbackButton,
            ]
        );
    }
}

#[test]
fn a_closed_alert_offers_no_form() {
    let request = client().close_feedback_button("C123", "123.45", "/svc/a", "OOM killed");
    let payload = Json::empty_object()
        .with("trigger_id", Json::text("t"))
        .with(
            "message",
            Json::empty_object()
                .with("ts", Json::text("123.45"))
                .with("blocks", request.body.get("blocks").unwrap().clone()),
        );
    assert_eq!(OpenModal::from_json(&payload), None);
}

#[test]
fn an_answer_of_the_platform_is_read() {
    let read = |text: &str| Response::from_json(&Json::parse(text).unwrap());
    assert_eq!(
        read(r#"{"ok":true,"channel":"C1","ts":"1.2"}"#),
        Some(Response { ok: true, error: None, response_metadata: None })
    );
    assert_eq!(
        read(r#"{"ok":false,"error":"invalid_blocks","response_metadata":{"messages":["m"]}}"#),
        Some(Response {
            ok: false,
            error: Some("invalid_blocks".to_string()),
            response_metadata: Some(Json::parse(r#"{"messages":["m"]}"#).unwrap()),
        })
    );
    assert_eq!(
        read(r#"{"ok":false,"error":null,"response_metadata":null}"#),
        Some(Response { ok: false, error: None, response_metadata: None })
    );
    assert_eq!(read(r#"{"error":"x"}"#), None);
    assert_eq!(read(r#"{"ok":"true"}"#), None);
    assert_eq!(read(r#"{"ok":true,"error":5}"#), None);
    assert_eq!(read("[]"), None);
}

#[test]
fn only_ok_true_after_a_success_status_is_a_success() {
    for call in [ApiCall::PostAlert, ApiCall::CloseFeedbackButton, ApiCall::OpenModal] {
        assert_eq!(response_outcome(call, true, r#"{"ok":true}"#), Ok(()));
        assert_eq!(
            response_outcome(call, false, r#"{"ok":true}"#),
            Err(RemoteApiError::Status(r#"{"ok":true}"#.to_string()))
        );
        assert_eq!(
            response_outcome(call, false, "Bad Gateway"),
            Err(RemoteApiError::Status("Bad Gateway".to_string()))
        );
        assert_eq!(response_outcome(call, true, "<html>"), Err(RemoteApiError::Unreadable));
        assert_eq!(response_outcome(call, true, "{}"), Err(RemoteApiError::Unreadable));
        assert_eq!(
            response_outcome(call, true, r#"{"ok":false,"error":"channel_not_found"}"#),
            Err(RemoteApiError::Rejected {
                error: "channel_not_found".to_string(),
                response_metadata: Json::Null,
            })
        );
    }
}

#[test]
fn a_rejection_carries_the_error_of_the_platform() {
    assert_eq!(
        response_outcome(ApiCall::PostAlert, true, r#"{"ok":false}"#),
        Err(RemoteApiError::Rejected { error: "Unknown".to_string(), response_metadata: Json::Null })
    );
    assert_eq!(
        response_outcome(ApiCall::CloseFeedbackButton, true, r#"{"ok":false}"#),
        Err(RemoteApiError::Rejected { error: "Unknown".to_string(), response_metadata: Json::Null })
    );
    assert_eq!(
        response_outcome(ApiCall::OpenModal, true, r#"{"ok":false}"#),
        Err(RemoteApiError::Rejected { error: String::new(), response_metadata: Json::Null })
    );
    assert_eq!(
        response_outcome(
            ApiCall::OpenModal,
            true,
            r#"{"ok":false,"error":"invalid_arguments","response_metadata":{"messages":["[ERROR] bad"],"n":1}}"#
        ),
        Err(RemoteApiError::Rejected {
            error: "invalid_arguments".to_string(),
            response_metadata: Json::parse(r#"{"messages":["[ERROR] bad"],"n":1}"#).unwrap(),
        })
    );
}
