//! The webhook's handler: it reads the interaction out of the form field of a
//! request and says what is to be done about it.

use crate::application::services::FeedbackError;
use crate::interface::payloads::{
    first_text, modal_values, text_payload, BlockActions, BlockId, InteractivityPayload,
    PayloadView,
};
use crate::interface::status::StatusCode;
use vstd::prelude::*;

verus! {

/// The name of the form field of a request that holds the interaction.
pub const PAYLOAD_FIELD: &'static str = "payload";

/// What is to be done about a request to the webhook.
#[derive(Debug, Clone, PartialEq)]
pub enum Dispatch {
    /// Nothing but to answer with this status.
    Respond(StatusCode),
    /// Open the feedback form for the alert at `ts`.
    OpenModal { trigger_id: String, ts: String, log_group: String, message: String },
    /// Record the feedback that was given in the form.
    AddFeedback { private_metadata: String, needs_notification: bool, reason: Option<String> },
}

pub enum DispatchView {
    Respond(StatusCode),
    OpenModal { trigger_id: Seq<char>, ts: Seq<char>, log_group: Seq<char>, message: Seq<char> },
    AddFeedback {
        private_metadata: Seq<char>,
        needs_notification: bool,
        reason: Option<Seq<char>>,
    },
}

impl View for Dispatch {
    type V = DispatchView;

    open spec fn view(&self) -> DispatchView {
        match self {
            Dispatch::Respond(status) => DispatchView::Respond(*status),
            Dispatch::OpenModal { trigger_id, ts, log_group, message } => DispatchView::OpenModal {
                trigger_id: trigger_id@,
                ts: ts@,
                log_group: log_group@,
                message: message@,
            },
            Dispatch::AddFeedback {
                private_metadata,
                needs_notification,
                reason,
            } => DispatchView::AddFeedback {
                private_metadata: private_metadata@,
                needs_notification: *needs_notification,
                reason: match reason {
                    Some(r) => Some(r@),
                    None => None,
                },
            },
        }
    }
}

/// What is to be done about a request whose form field `PAYLOAD_FIELD` holds
/// this text, or is missing. A request that cannot be read is answered with 400: no
/// field, no JSON, no interaction, a button press on a message without a log
/// group or a log line, a form without its answers. A press of the feedback
/// button opens the form for the alert it was pressed under. Any other
/// interaction with a block is answered with 200 and otherwise ignored. A
/// submitted form has its feedback recorded.
pub open spec fn dispatch(payload: Option<Seq<char>>) -> DispatchView {
    match payload {
        None => DispatchView::Respond(StatusCode::BadRequest),
        Some(text) => match text_payload(text) {
            Err(_) => DispatchView::Respond(StatusCode::BadRequest),
            Ok(PayloadView::OtherAction(_)) => DispatchView::Respond(StatusCode::Success),
            Ok(PayloadView::OpenModal(open)) => match (
                first_text(open.blocks, BlockId::LogGroup),
                first_text(open.blocks, BlockId::Message),
            ) {
                (Some(log_group), Some(message)) => DispatchView::OpenModal {
                    trigger_id: open.trigger_id,
                    ts: open.ts,
                    log_group,
                    message,
                },
                _ => DispatchView::Respond(StatusCode::BadRequest),
            },
            Ok(PayloadView::ViewSubmission(submission)) => match modal_values(submission.values) {
                Ok((needs_notification, reason)) => DispatchView::AddFeedback {
                    private_metadata: submission.private_metadata,
                    needs_notification,
                    reason,
                },
                Err(_) => DispatchView::Respond(StatusCode::BadRequest),
            },
        },
    }
}

/// The status that answers a press of the feedback button once the form was
/// to be opened: 200 where that went well, 500 where it failed.
pub open spec fn outcome_status(done: bool) -> StatusCode {
    if done {
        StatusCode::Success
    } else {
        StatusCode::InternalServerError
    }
}

/// The status that answers a submitted form once the recording of its
/// feedback has ended. A form whose token holds no state is a request that
/// cannot be read, 400; any other failure is a failure of this side, 500.
pub open spec fn feedback_status<E>(outcome: Result<(), FeedbackError<E>>) -> StatusCode {
    match outcome {
        Ok(()) => StatusCode::Success,
        Err(FeedbackError::Token(_)) => StatusCode::BadRequest,
        Err(_) => StatusCode::InternalServerError,
    }
}

/// Reads the form field `PAYLOAD_FIELD` of a request and says what is to be
/// done.
pub fn add_feedback_handler(payload: Option<&str>) -> (todo: Dispatch)
    ensures
        todo@ == dispatch(
            match payload {
                Some(text) => Some(text@),
                None => None,
            },
        ),
{
    let text = match payload {
        Some(text) => text,
        None => {
            return Dispatch::Respond(StatusCode::BadRequest);
        },
    };
    let payload = match InteractivityPayload::parse(text) {
        Ok(payload) => payload,
        Err(_) => {
            return Dispatch::Respond(StatusCode::BadRequest);
        },
    };
    match payload {
        InteractivityPayload::BlockActions(BlockActions::OpenModal(open)) => {
            let log_group = match open.get_log_group() {
                Some(log_group) => log_group,
                None => {
                    return Dispatch::Respond(StatusCode::BadRequest);
                },
            };
            let message = match open.get_message() {
                Some(message) => message,
                None => {
                    return Dispatch::Respond(StatusCode::BadRequest);
                },
            };
            Dispatch::OpenModal {
                trigger_id: open.trigger_id().to_owned(),
                ts: open.get_ts().to_owned(),
                log_group: log_group.to_owned(),
                message: message.to_owned(),
            }
        },
        InteractivityPayload::BlockActions(BlockActions::Other(_)) => Dispatch::Respond(
            StatusCode::Success,
        ),
        InteractivityPayload::ViewSubmission(submission) => {
            match submission.get_modal_values() {
                Ok((needs_notification, reason)) => Dispatch::AddFeedback {
                    private_metadata: submission.get_private_metadata().to_owned(),
                    needs_notification,
                    reason,
                },
                Err(_) => Dispatch::Respond(StatusCode::BadRequest),
            }
        },
    }
}

/// The status that answers a submitted form after the recording of its
/// feedback.
pub fn respond_to_feedback<E>(outcome: &Result<(), FeedbackError<E>>) -> (status: StatusCode)
    ensures
        status == feedback_status(*outcome),
{
    match outcome {
        Ok(()) => StatusCode::Success,
        Err(FeedbackError::Token(_)) => StatusCode::BadRequest,
        Err(_) => StatusCode::InternalServerError,
    }
}

/// The status that answers a press of the feedback button after the opening
/// of the form: `done` tells whether that went well.
pub fn respond(done: bool) -> (status: StatusCode)
    ensures
        status == outcome_status(done),
{
    if done {
        StatusCode::Success
    } else {
        StatusCode::InternalServerError
    }
}

} // verus!
