//! The chat platform: the state token carried through its forms, the messages
//! and forms this service shows, and the requests that show them.

use crate::encoding::{
    base64_decode, base64_decoded, base64_encode, base64_encoded, base64_input_limit,
    base64_padding, begins_as_gzip, gunzip, gunzipped, gzip, gzipped, is_base64_padded,
    is_base64_shaped,
};
use crate::json::{
    json_parsed, json_printed, lemma_text_record_is_unambiguous, Json, JsonValue,
};
use vstd::prelude::*;

verus! {

/// Where the chat platform's API lives.
pub const BASE_URL: &'static str = "https://slack.com/api";

/// What a feedback form has to remember about the alert it belongs to. It
/// travels through the chat platform as an opaque token and is never stored.
#[derive(Debug, Clone, PartialEq)]
pub struct PrivateMetadata {
    pub ts: String,
    pub log_group: String,
    pub message: String,
}

pub struct PrivateMetadataView {
    pub ts: Seq<char>,
    pub log_group: Seq<char>,
    pub message: Seq<char>,
}

impl View for PrivateMetadata {
    type V = PrivateMetadataView;

    open spec fn view(&self) -> PrivateMetadataView {
        PrivateMetadataView { ts: self.ts@, log_group: self.log_group@, message: self.message@ }
    }
}

/// Why a token cannot be made.
#[derive(Debug, Clone, Copy, PartialEq, Eq, Structural)]
pub enum EncodeError {
    /// The state could not be written as JSON.
    Serialize,
    /// The compressor reported an error.
    Compress,
    /// The compressed state is too long to be encoded.
    TooLong,
}

/// Why a token holds no state.
#[derive(Debug, Clone, Copy, PartialEq, Eq, Structural)]
pub enum DecodeError {
    /// The token is not base64.
    Base64,
    /// The bytes in the token are not a gzip stream of text.
    Gzip,
    /// The text in the token is not JSON.
    Json,
    /// The JSON in the token is not a state: one of its three string fields is
    /// missing or is no string.
    State,
}

/// The state as the JSON object that is written into a token.
pub open spec fn state_document(state: PrivateMetadataView) -> JsonValue {
    JsonValue::object().with("ts"@, JsonValue::text(state.ts)).with(
        "log_group"@,
        JsonValue::text(state.log_group),
    ).with("message"@, JsonValue::text(state.message))
}

/// The state that a JSON document holds: an object whose members `ts`,
/// `log_group` and `message` are strings. Other members are ignored.
pub open spec fn document_state(document: JsonValue) -> Option<PrivateMetadataView> {
    match (document.field("ts"@), document.field("log_group"@), document.field("message"@)) {
        (
            Some(JsonValue::Text(ts)),
            Some(JsonValue::Text(log_group)),
            Some(JsonValue::Text(message)),
        ) => Some(PrivateMetadataView { ts, log_group, message }),
        _ => None,
    }
}

/// The state in a token: the token is base64, the bytes are a gzip stream, the
/// text is JSON, and the document is a state. Each step that fails is an error
/// of its own.
pub open spec fn token_state(token: Seq<char>) -> Result<PrivateMetadataView, DecodeError> {
    match base64_decoded(token) {
        None => Err(DecodeError::Base64),
        Some(data) => match gunzipped(data) {
            None => Err(DecodeError::Gzip),
            Some(text) => match json_parsed(text) {
                None => Err(DecodeError::Json),
                Some(document) => match document_state(document) {
                    None => Err(DecodeError::State),
                    Some(state) => Ok(state),
                },
            },
        },
    }
}

/// The token for a state: its JSON text, compressed, in base64. There is no
/// token where the state cannot be written as JSON, where the compressor
/// fails, or where what it gives is too long to be encoded. The token is told
/// by the state alone.
pub open spec fn state_token(state: PrivateMetadataView) -> Result<Seq<char>, EncodeError> {
    match json_printed(state_document(state)) {
        None => Err(EncodeError::Serialize),
        Some(text) => match gzipped(text) {
            None => Err(EncodeError::Compress),
            Some(data) => if data.len() <= base64_input_limit() {
                Ok(base64_encoded(data))
            } else {
                Err(EncodeError::TooLong)
            },
        },
    }
}

/// The three names of a state's fields differ from one another.
pub proof fn lemma_state_names_differ()
    ensures
        "ts"@ != "log_group"@,
        "ts"@ != "message"@,
        "log_group"@ != "message"@,
{
    reveal_strlit("ts");
    reveal_strlit("log_group");
    reveal_strlit("message");
    assert("ts"@.len() == 2);
    assert("log_group"@.len() == 9);
    assert("message"@.len() == 7);
}

/// The document written for a state is a record of strings under names that
/// are free to use, and the state read from it is the state it was written
/// for.
pub proof fn lemma_state_document_round_trip(state: PrivateMetadataView)
    ensures
        state_document(state).is_plain_record(),
        document_state(state_document(state)) == Some(state),
{
    lemma_state_names_differ();
    reveal_strlit("ts");
    reveal_strlit("log_group");
    reveal_strlit("message");
    reveal_strlit("$serde_json::private::RawValue");
    reveal_strlit("$serde_json::private::Number");
    assert("ts"@.len() == 2 && "log_group"@.len() == 9 && "message"@.len() == 7);
    assert("$serde_json::private::RawValue"@.len() == 30);
    assert("$serde_json::private::Number"@.len() == 28);
    reveal_with_fuel(JsonValue::lookup, 4);
    let members = state_document(state)->Object_0;
    assert(members.drop_first().drop_first()[0] == members[2]);
    assert(members.drop_first()[0] == members[1]);
}

/// Makes the token from what the compressor gave for the state's JSON text.
pub fn token_from_compressed(compressed: Option<Vec<u8>>) -> (token: Result<String, EncodeError>)
    ensures
        match compressed {
            None => token == Err::<String, _>(EncodeError::Compress),
            Some(data) => if data@.len() <= base64_input_limit() {
                &&& token matches Ok(t)
                &&& t@ == base64_encoded(data@)
                &&& base64_decoded(t@) == Some(data@)
                &&& is_base64_shaped(t@)
            } else {
                token == Err::<String, _>(EncodeError::TooLong)
            },
        },
{
    match compressed {
        None => Err(EncodeError::Compress),
        Some(data) => {
            if data.len() <= (usize::MAX - 4) / 4 * 3 {
                let token = base64_encode(data.as_slice());
                assert(is_base64_padded(token@, base64_padding(data@.len() as int)));
                Ok(token)
            } else {
                Err(EncodeError::TooLong)
            }
        },
    }
}

/// A state in the making: each field is there once it was given.
#[derive(Debug, Clone, PartialEq)]
pub struct PrivateMetadataBuilder {
    pub ts: Option<String>,
    pub log_group: Option<String>,
    pub message: Option<String>,
}

impl PrivateMetadataBuilder {
    /// Whether every field was given.
    pub open spec fn complete(self) -> bool {
        self.ts is Some && self.log_group is Some && self.message is Some
    }

    pub fn ts(self, ts: String) -> (next: PrivateMetadataBuilder)
        ensures
            next == (PrivateMetadataBuilder { ts: Some(ts), ..self }),
    {
        PrivateMetadataBuilder { ts: Some(ts), ..self }
    }

    pub fn log_group(self, log_group: String) -> (next: PrivateMetadataBuilder)
        ensures
            next == (PrivateMetadataBuilder { log_group: Some(log_group), ..self }),
    {
        PrivateMetadataBuilder { log_group: Some(log_group), ..self }
    }

    pub fn message(self, message: String) -> (next: PrivateMetadataBuilder)
        ensures
            next == (PrivateMetadataBuilder { message: Some(message), ..self }),
    {
        PrivateMetadataBuilder { message: Some(message), ..self }
    }

    /// The state, once every field was given.
    pub fn build(self) -> (state: PrivateMetadata)
        requires
            self.complete(),
        ensures
            state == (PrivateMetadata {
                ts: self.ts->0,
                log_group: self.log_group->0,
                message: self.message->0,
            }),
    {
        PrivateMetadata {
            ts: self.ts.unwrap(),
            log_group: self.log_group.unwrap(),
            message: self.message.unwrap(),
        }
    }
}

impl PrivateMetadata {
    /// Begins a state without any field.
    pub fn builder() -> (builder: PrivateMetadataBuilder)
        ensures
            builder == (PrivateMetadataBuilder { ts: None, log_group: None, message: None }),
    {
        PrivateMetadataBuilder { ts: None, log_group: None, message: None }
    }

    /// The state as a JSON document.
    pub fn to_json(&self) -> (document: Json)
        ensures
            document@ == state_document(self@),
    {
        Json::empty_object().with("ts", Json::text(self.ts.as_str())).with(
            "log_group",
            Json::text(self.log_group.as_str()),
        ).with("message", Json::text(self.message.as_str()))
    }

    /// The state that a JSON document holds.
    pub fn from_json(document: &Json) -> (state: Option<PrivateMetadata>)
        ensures
            match state {
                Some(s) => document_state(document@) == Some(s@),
                None => document_state(document@) is None,
            },
    {
        let ts = match document.get("ts") {
            Some(j) => match j.as_str() {
                Some(s) => s,
                None => {
                    return None;
                },
            },
            None => {
                return None;
            },
        };
        let log_group = match document.get("log_group") {
            Some(j) => match j.as_str() {
                Some(s) => s,
                None => {
                    return None;
                },
            },
            None => {
                return None;
            },
        };
        let message = match document.get("message") {
            Some(j) => match j.as_str() {
                Some(s) => s,
                None => {
                    return None;
                },
            },
            None => {
                return None;
            },
        };
        Some(
            PrivateMetadata {
                ts: ts.to_owned(),
                log_group: log_group.to_owned(),
                message: message.to_owned(),
            },
        )
    }

    /// The token for this state, or the reason why there is none. Every
    /// token holds this state again. It has the shape of standard base64 with
    /// padding, and the bytes in it begin as a gzip stream begins.
    pub fn encode_base64(&self) -> (token: Result<String, EncodeError>)
        ensures
            match token {
                Ok(t) => state_token(self@) == Ok::<_, EncodeError>(t@),
                Err(e) => state_token(self@) == Err::<Seq<char>, _>(e),
            },
            token matches Ok(t) ==> {
                &&& token_state(t@) == Ok::<_, DecodeError>(self@)
                &&& is_base64_shaped(t@)
                &&& base64_decoded(t@) matches Some(data) && begins_as_gzip(data)
            },
            token != Err::<String, _>(EncodeError::Serialize),
    {
        proof {
            lemma_state_document_round_trip(self@);
            lemma_text_record_is_unambiguous(state_document(self@));
        }
        let text = match self.to_json().to_text() {
            Some(text) => text,
            None => {
                return Err(EncodeError::Serialize);
            },
        };
        token_from_compressed(gzip(text.as_str()))
    }

    /// The state that a token holds.
    pub fn try_from(value: &str) -> (state: Result<PrivateMetadata, DecodeError>)
        ensures
            match state {
                Ok(s) => token_state(value@) == Ok::<_, DecodeError>(s@),
                Err(e) => token_state(value@) == Err::<PrivateMetadataView, _>(e),
            },
    {
        let compressed = match base64_decode(value) {
            Some(data) => data,
            None => {
                return Err(DecodeError::Base64);
            },
        };
        let text = match gunzip(compressed.as_slice()) {
            Some(text) => text,
            None => {
                return Err(DecodeError::Gzip);
            },
        };
        let document = match Json::parse(text.as_str()) {
            Some(document) => document,
            None => {
                return Err(DecodeError::Json);
            },
        };
        match PrivateMetadata::from_json(&document) {
            Some(state) => Ok(state),
            None => Err(DecodeError::State),
        }
    }

    /// The identifier of the posted alert message.
    pub fn ts(&self) -> (ts: &str)
        ensures
            ts@ == self@.ts,
    {
        self.ts.as_str()
    }

    pub fn log_group(&self) -> (log_group: &str)
        ensures
            log_group@ == self@.log_group,
    {
        self.log_group.as_str()
    }

    pub fn message(&self) -> (message: &str)
        ensures
            message@ == self@.message,
    {
        self.message.as_str()
    }
}

/// A text object shown as it is.
pub open spec fn plain_text(text: Seq<char>) -> JsonValue {
    JsonValue::object().with("type"@, JsonValue::text("plain_text"@)).with(
        "text"@,
        JsonValue::text(text),
    )
}

/// A text object in the platform's markup.
pub open spec fn mrkdwn(text: Seq<char>) -> JsonValue {
    JsonValue::object().with("type"@, JsonValue::text("mrkdwn"@)).with(
        "text"@,
        JsonValue::text(text),
    )
}

/// A section block named `block_id` that shows `text`.
pub open spec fn section(block_id: Seq<char>, text: JsonValue) -> JsonValue {
    JsonValue::object().with("type"@, JsonValue::text("section"@)).with(
        "block_id"@,
        JsonValue::text(block_id),
    ).with("text"@, text)
}

/// One choice of a select: its label and the value it stands for.
pub open spec fn select_option(label: Seq<char>, value: Seq<char>) -> JsonValue {
    JsonValue::object().with("text"@, plain_text(label)).with("value"@, JsonValue::text(value))
}

/// The blocks every alert shows, whether it is open or closed: a header, the
/// log group under its heading, the log line under its heading, and a divider.
pub open spec fn base_alert_message(log_group: Seq<char>, message: Seq<char>) -> JsonValue {
    JsonValue::list().and(
        JsonValue::object().with("type"@, JsonValue::text("header"@)).with(
            "block_id"@,
            JsonValue::text("header"@),
        ).with(
            "text"@,
            plain_text(":rotating_light: エラーが発生しました :rotating_light:"@).with(
                "emoji"@,
                JsonValue::Bool(true),
            ),
        ),
    ).and(section("log_group_header"@, mrkdwn("*CloudWatch Logs ロググループ*"@))).and(
        section("log_group"@, plain_text(log_group)),
    ).and(section("message_header"@, mrkdwn("*ログメッセージ*"@))).and(
        section("message"@, plain_text(message)),
    ).and(
        JsonValue::object().with("type"@, JsonValue::text("divider"@)).with(
            "block_id"@,
            JsonValue::text("divider"@),
        ),
    )
}

/// The block under an open alert: the button that opens the feedback form.
pub open spec fn feedback_button() -> JsonValue {
    JsonValue::object().with("type"@, JsonValue::text("actions"@)).with(
        "block_id"@,
        JsonValue::text("feedback_button"@),
    ).with(
        "elements"@,
        JsonValue::list().and(
            JsonValue::object().with("type"@, JsonValue::text("button"@)).with(
                "text"@,
                plain_text("フィードバック"@),
            ).with("style"@, JsonValue::text("primary"@)).with(
                "value"@,
                JsonValue::text("send_feedback"@),
            ).with("action_id"@, JsonValue::text("open_modal"@)),
        ),
    )
}

/// The block under a closed alert: the note that feedback was given.
pub open spec fn feedback_received() -> JsonValue {
    JsonValue::object().with("type"@, JsonValue::text("section"@)).with(
        "text"@,
        mrkdwn("_フィードバック済み_"@),
    )
}

/// The feedback form: a select that asks whether a notification is needed,
/// "not needed" chosen at first, and an optional multi-line reason. The token
/// travels in the form's private metadata.
pub open spec fn feedback_view(private_metadata: Seq<char>) -> JsonValue {
    JsonValue::object().with("type"@, JsonValue::text("modal"@)).with(
        "callback_id"@,
        JsonValue::text("send_feedback"@),
    ).with("private_metadata"@, JsonValue::text(private_metadata)).with(
        "title"@,
        plain_text("フィードバック"@),
    ).with(
        "blocks"@,
        JsonValue::list().and(
            section("needs_notification"@, plain_text("通知が必要ですか？"@)).with(
                "accessory"@,
                JsonValue::object().with("type"@, JsonValue::text("static_select"@)).with(
                    "action_id"@,
                    JsonValue::text("needs_notification"@),
                ).with("initial_option"@, select_option("不要"@, "false"@)).with(
                    "options"@,
                    JsonValue::list().and(select_option("不要"@, "false"@)).and(
                        select_option("必要"@, "true"@),
                    ),
                ),
            ),
        ).and(
            JsonValue::object().with("type"@, JsonValue::text("input"@)).with(
                "block_id"@,
                JsonValue::text("reason"@),
            ).with("label"@, plain_text("理由"@)).with(
                "element"@,
                JsonValue::object().with("type"@, JsonValue::text("plain_text_input"@)).with(
                    "action_id"@,
                    JsonValue::text("reason"@),
                ).with("multiline"@, JsonValue::Bool(true)),
            ).with("optional"@, JsonValue::Bool(true)),
        ),
    ).with("close"@, plain_text("キャンセル"@)).with("submit"@, plain_text("送信"@))
}

fn make_plain_text(text: &str) -> (j: Json)
    ensures
        j@ == plain_text(text@),
{
    Json::empty_object().with("type", Json::text("plain_text")).with("text", Json::text(text))
}

fn make_mrkdwn(text: &str) -> (j: Json)
    ensures
        j@ == mrkdwn(text@),
{
    Json::empty_object().with("type", Json::text("mrkdwn")).with("text", Json::text(text))
}

fn make_section(block_id: &str, text: Json) -> (j: Json)
    ensures
        j@ == section(block_id@, text@),
{
    Json::empty_object().with("type", Json::text("section")).with(
        "block_id",
        Json::text(block_id),
    ).with("text", text)
}

fn make_select_option(label: &str, value: &str) -> (j: Json)
    ensures
        j@ == select_option(label@, value@),
{
    Json::empty_object().with("text", make_plain_text(label)).with("value", Json::text(value))
}

/// The feedback form that carries `private_metadata`.
pub fn make_feedback_view(private_metadata: &str) -> (view: Json)
    ensures
        view@ == feedback_view(private_metadata@),
{
    let select = Json::empty_object().with("type", Json::text("static_select")).with(
        "action_id",
        Json::text("needs_notification"),
    ).with("initial_option", make_select_option("不要", "false")).with(
        "options",
        Json::empty_list().and(make_select_option("不要", "false")).and(
            make_select_option("必要", "true"),
        ),
    );
    let question = make_section("needs_notification", make_plain_text("通知が必要ですか？")).with(
        "accessory",
        select,
    );
    let reason = Json::empty_object().with("type", Json::text("input")).with(
        "block_id",
        Json::text("reason"),
    ).with("label", make_plain_text("理由")).with(
        "element",
        Json::empty_object().with("type", Json::text("plain_text_input")).with(
            "action_id",
            Json::text("reason"),
        ).with("multiline", Json::Bool(true)),
    ).with("optional", Json::Bool(true));
    Json::empty_object().with("type", Json::text("modal")).with(
        "callback_id",
        Json::text("send_feedback"),
    ).with("private_metadata", Json::text(private_metadata)).with(
        "title",
        make_plain_text("フィードバック"),
    ).with("blocks", Json::empty_list().and(question).and(reason)).with(
        "close",
        make_plain_text("キャンセル"),
    ).with("submit", make_plain_text("送信"))
}

/// The answer of the chat platform to a call.
#[derive(Debug, PartialEq)]
pub struct Response {
    pub ok: bool,
    pub error: Option<String>,
    pub response_metadata: Option<Json>,
}

pub struct ResponseView {
    pub ok: bool,
    pub error: Option<Seq<char>>,
    pub response_metadata: Option<JsonValue>,
}

impl View for Response {
    type V = ResponseView;

    open spec fn view(&self) -> ResponseView {
        ResponseView {
            ok: self.ok,
            error: match self.error {
                Some(e) => Some(e@),
                None => None,
            },
            response_metadata: match self.response_metadata {
                Some(m) => Some(m@),
                None => None,
            },
        }
    }
}

/// The answer that a JSON document holds: `ok` is a boolean; `error` is a
/// string, or is null or missing; `response_metadata` is anything, and counts
/// as absent where it is null or missing.
pub open spec fn document_response(document: JsonValue) -> Option<ResponseView> {
    match document.field("ok"@) {
        Some(JsonValue::Bool(ok)) => {
            let response_metadata = match document.field("response_metadata"@) {
                None | Some(JsonValue::Null) => None,
                Some(m) => Some(m),
            };
            match document.field("error"@) {
                None | Some(JsonValue::Null) => Some(
                    ResponseView { ok, error: None, response_metadata },
                ),
                Some(JsonValue::Text(e)) => Some(
                    ResponseView { ok, error: Some(e), response_metadata },
                ),
                _ => None,
            }
        },
        _ => None,
    }
}

impl Response {
    /// The answer that a JSON document holds.
    pub fn from_json(document: &Json) -> (response: Option<Response>)
        ensures
            match response {
                Some(r) => document_response(document@) == Some(r@),
                None => document_response(document@) is None,
            },
    {
        let ok = match document.get("ok") {
            Some(j) => match j.as_bool() {
                Some(b) => b,
                None => {
                    return None;
                },
            },
            None => {
                return None;
            },
        };
        let response_metadata = match document.get("response_metadata") {
            Some(j) => if j.is_null() {
                None
            } else {
                Some(j.clone())
            },
            None => None,
        };
        let error = match document.get("error") {
            Some(j) => match j.as_str() {
                Some(e) => Some(e.to_owned()),
                None => {
                    if j.is_null() {
                        None
                    } else {
                        return None;
                    }
                },
            },
            None => None,
        };
        Some(Response { ok, error, response_metadata })
    }
}

/// The calls this service makes to the chat platform.
#[derive(Debug, Clone, Copy, PartialEq, Eq, Structural)]
pub enum ApiCall {
    PostAlert,
    CloseFeedbackButton,
    OpenModal,
}

/// Why a call to the chat platform counts as failed.
#[derive(Debug, PartialEq)]
pub enum RemoteApiError {
    /// The platform answered with a status that is no success; the body of
    /// the answer is attached.
    Status(String),
    /// The platform answered with a success status, but the body is no answer
    /// of the platform.
    Unreadable,
    /// The platform answered `ok: false`. Its error string is attached, and
    /// its `response_metadata`, `null` where it gave none.
    Rejected { error: String, response_metadata: Json },
}

pub enum RemoteApiErrorView {
    Status(Seq<char>),
    Unreadable,
    Rejected { error: Seq<char>, response_metadata: JsonValue },
}

impl View for RemoteApiError {
    type V = RemoteApiErrorView;

    open spec fn view(&self) -> RemoteApiErrorView {
        match self {
            RemoteApiError::Status(body) => RemoteApiErrorView::Status(body@),
            RemoteApiError::Unreadable => RemoteApiErrorView::Unreadable,
            RemoteApiError::Rejected { error, response_metadata } => RemoteApiErrorView::Rejected {
                error: error@,
                response_metadata: response_metadata@,
            },
        }
    }
}

/// What stands for the platform's error string where it gave none.
pub open spec fn missing_error(call: ApiCall) -> Seq<char> {
    match call {
        ApiCall::OpenModal => ""@,
        _ => "Unknown"@,
    }
}

/// What the answer to `call` means. A status that is no success fails the
/// call, whatever the body. After a success status the body has to be an
/// answer of the platform, and only `ok: true` is a success.
pub open spec fn call_outcome(call: ApiCall, success: bool, body: Seq<char>) -> Result<
    (),
    RemoteApiErrorView,
> {
    if !success {
        Err(RemoteApiErrorView::Status(body))
    } else {
        match json_parsed(body) {
            None => Err(RemoteApiErrorView::Unreadable),
            Some(document) => match document_response(document) {
                None => Err(RemoteApiErrorView::Unreadable),
                Some(response) => if response.ok {
                    Ok(())
                } else {
                    Err(
                        RemoteApiErrorView::Rejected {
                            error: match response.error {
                                Some(e) => e,
                                None => missing_error(call),
                            },
                            response_metadata: match response.response_metadata {
                                Some(m) => m,
                                None => JsonValue::Null,
                            },
                        },
                    )
                },
            },
        }
    }
}

/// Reads the platform's answer to `call`: `success` tells whether the HTTP
/// status was a success, `body` is the body of the answer.
pub fn response_outcome(call: ApiCall, success: bool, body: &str) -> (outcome: Result<
    (),
    RemoteApiError,
>)
    ensures
        match outcome {
            Ok(()) => call_outcome(call, success, body@) is Ok,
            Err(e) => call_outcome(call, success, body@) == Err::<(), _>(e@),
        },
{
    if !success {
        return Err(RemoteApiError::Status(body.to_owned()));
    }
    let document = match Json::parse(body) {
        Some(document) => document,
        None => {
            return Err(RemoteApiError::Unreadable);
        },
    };
    let response = match Response::from_json(&document) {
        Some(response) => response,
        None => {
            return Err(RemoteApiError::Unreadable);
        },
    };
    if response.ok {
        Ok(())
    } else {
        let error = match response.error {
            Some(e) => e,
            None => match call {
                ApiCall::OpenModal => String::from_str(""),
                _ => String::from_str("Unknown"),
            },
        };
        let response_metadata = match response.response_metadata {
            Some(m) => m,
            None => Json::Null,
        };
        Err(RemoteApiError::Rejected { error, response_metadata })
    }
}

/// The client of the chat platform's API: it holds the API token and
/// describes the calls to make.
#[derive(Debug, Clone, PartialEq)]
pub struct Client {
    pub token: String,
}

/// One call to the chat platform: where to post, how to authorize, what to send.
#[derive(Debug, PartialEq)]
pub struct ApiRequest {
    pub url: String,
    pub authorization: String,
    pub body: Json,
}

pub struct ApiRequestView {
    pub url: Seq<char>,
    pub authorization: Seq<char>,
    pub body: JsonValue,
}

impl View for ApiRequest {
    type V = ApiRequestView;

    open spec fn view(&self) -> ApiRequestView {
        ApiRequestView { url: self.url@, authorization: self.authorization@, body: self.body@ }
    }
}

/// The call that posts a new alert for `message` of `log_group` to a channel,
/// with the feedback button under it.
pub open spec fn post_alert_request(
    token: Seq<char>,
    channel_id: Seq<char>,
    log_group: Seq<char>,
    message: Seq<char>,
) -> ApiRequestView {
    ApiRequestView {
        url: BASE_URL@ + "/chat.postMessage"@,
        authorization: "Bearer "@ + token,
        body: JsonValue::object().with("channel"@, JsonValue::text(channel_id)).with(
            "blocks"@,
            base_alert_message(log_group, message).and(feedback_button()),
        ),
    }
}

/// The call that rewrites the alert posted as `ts`: the same alert, with the
/// note that feedback was given in place of the button.
pub open spec fn close_feedback_button_request(
    token: Seq<char>,
    channel_id: Seq<char>,
    ts: Seq<char>,
    log_group: Seq<char>,
    message: Seq<char>,
) -> ApiRequestView {
    ApiRequestView {
        url: BASE_URL@ + "/chat.update"@,
        authorization: "Bearer "@ + token,
        body: JsonValue::object().with("channel"@, JsonValue::text(channel_id)).with(
            "ts"@,
            JsonValue::text(ts),
        ).with("blocks"@, base_alert_message(log_group, message).and(feedback_received())),
    }
}

/// The call that opens the feedback form for the interaction `trigger_id`.
pub open spec fn open_modal_request(
    token: Seq<char>,
    trigger_id: Seq<char>,
    private_metadata: Seq<char>,
) -> ApiRequestView {
    ApiRequestView {
        url: BASE_URL@ + "/views.open"@,
        authorization: "Bearer "@ + token,
        body: JsonValue::object().with("trigger_id"@, JsonValue::text(trigger_id)).with(
            "view"@,
            feedback_view(private_metadata),
        ),
    }
}

impl Client {
    fn request(&self, method: &str, body: Json) -> (request: ApiRequest)
        ensures
            request@ == (ApiRequestView {
                url: BASE_URL@ + method@,
                authorization: "Bearer "@ + self.token@,
                body: body@,
            }),
    {
        ApiRequest {
            url: String::from_str(BASE_URL).concat(method),
            authorization: String::from_str("Bearer ").concat(self.token.as_str()),
            body,
        }
    }

    /// Describes the call that posts an alert.
    pub fn post_alert(&self, channel_id: &str, log_group: &str, message: &str) -> (request:
        ApiRequest)
        ensures
            request@ == post_alert_request(self.token@, channel_id@, log_group@, message@),
    {
        let button = Json::empty_object().with("type", Json::text("actions")).with(
            "block_id",
            Json::text("feedback_button"),
        ).with(
            "elements",
            Json::empty_list().and(
                Json::empty_object().with("type", Json::text("button")).with(
                    "text",
                    make_plain_text("フィードバック"),
                ).with("style", Json::text("primary")).with(
                    "value",
                    Json::text("send_feedback"),
                ).with("action_id", Json::text("open_modal")),
            ),
        );
        let blocks = self.make_base_alert_message(log_group, message).and(button);
        self.request(
            "/chat.postMessage",
            Json::empty_object().with("channel", Json::text(channel_id)).with("blocks", blocks),
        )
    }

    /// Describes the call that closes the alert posted as `ts`.
    pub fn close_feedback_button(
        &self,
        channel_id: &str,
        ts: &str,
        log_group: &str,
        message: &str,
    ) -> (request: ApiRequest)
        ensures
            request@ == close_feedback_button_request(
                self.token@,
                channel_id@,
                ts@,
                log_group@,
                message@,
            ),
    {
        let note = Json::empty_object().with("type", Json::text("section")).with(
            "text",
            make_mrkdwn("_フィードバック済み_"),
        );
        let blocks = self.make_base_alert_message(log_group, message).and(note);
        self.request(
            "/chat.update",
            Json::empty_object().with("channel", Json::text(channel_id)).with(
                "ts",
                Json::text(ts),
            ).with("blocks", blocks),
        )
    }

    /// The blocks that every alert for `message` of `log_group` shows.
    pub fn make_base_alert_message(&self, log_group: &str, message: &str) -> (blocks: Json)
        ensures
            blocks@ == base_alert_message(log_group@, message@),
    {
        let header = Json::empty_object().with("type", Json::text("header")).with(
            "block_id",
            Json::text("header"),
        ).with(
            "text",
            make_plain_text(":rotating_light: エラーが発生しました :rotating_light:").with(
                "emoji",
                Json::Bool(true),
            ),
        );
        let divider = Json::empty_object().with("type", Json::text("divider")).with(
            "block_id",
            Json::text("divider"),
        );
        Json::empty_list().and(header).and(
            make_section("log_group_header", make_mrkdwn("*CloudWatch Logs ロググループ*")),
        ).and(make_section("log_group", make_plain_text(log_group))).and(
            make_section("message_header", make_mrkdwn("*ログメッセージ*")),
        ).and(make_section("message", make_plain_text(message))).and(divider)
    }

    /// Describes the call that opens the feedback form.
    pub fn open_modal(&self, trigger_id: &str, private_metadata: &str) -> (request: ApiRequest)
        ensures
            request@ == open_modal_request(self.token@, trigger_id@, private_metadata@),
    {
        self.request(
            "/views.open",
            Json::empty_object().with("trigger_id", Json::text(trigger_id)).with(
                "view",
                make_feedback_view(private_metadata),
            ),
        )
    }
}

} // verus!
