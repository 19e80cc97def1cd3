//! The feedback record: what a human said about one alert.

use crate::domain::value_objects::{FeedbackId, Timestamp};
use vstd::prelude::*;

verus! {

/// One piece of feedback. It is made once, when the feedback form is
/// submitted, and never changed.
#[derive(Debug, Clone, PartialEq)]
pub struct Feedback {
    pub id: FeedbackId,
    pub created_at: Timestamp,
    pub log_group: String,
    pub message: String,
    pub needs_notification: bool,
    pub reason: Option<String>,
}

pub struct FeedbackView {
    pub id: FeedbackId,
    pub created_at: Timestamp,
    pub log_group: Seq<char>,
    pub message: Seq<char>,
    pub needs_notification: bool,
    pub reason: Option<Seq<char>>,
}

impl View for Feedback {
    type V = FeedbackView;

    open spec fn view(&self) -> FeedbackView {
        FeedbackView {
            id: self.id,
            created_at: self.created_at,
            log_group: self.log_group@,
            message: self.message@,
            needs_notification: self.needs_notification,
            reason: match self.reason {
                Some(r) => Some(r@),
                None => None,
            },
        }
    }
}

/// The views of a run of feedback records.
pub open spec fn feedback_view(feedback: Seq<Feedback>) -> Seq<FeedbackView> {
    Seq::new(feedback.len(), |i: int| feedback[i]@)
}

/// A feedback record in the making: each field is there once it was given.
#[derive(Debug, Clone, PartialEq)]
pub struct FeedbackBuilder {
    pub id: Option<FeedbackId>,
    pub created_at: Option<Timestamp>,
    pub log_group: Option<String>,
    pub message: Option<String>,
    pub needs_notification: Option<bool>,
    pub reason: Option<Option<String>>,
}

impl FeedbackBuilder {
    /// Whether every field was given.
    pub open spec fn complete(self) -> bool {
        &&& self.id is Some
        &&& self.created_at is Some
        &&& self.log_group is Some
        &&& self.message is Some
        &&& self.needs_notification is Some
        &&& self.reason is Some
    }

    pub fn id(self, id: FeedbackId) -> (next: FeedbackBuilder)
        ensures
            next == (FeedbackBuilder { id: Some(id), ..self }),
    {
        FeedbackBuilder { id: Some(id), ..self }
    }

    pub fn created_at(self, created_at: Timestamp) -> (next: FeedbackBuilder)
        ensures
            next == (FeedbackBuilder { created_at: Some(created_at), ..self }),
    {
        FeedbackBuilder { created_at: Some(created_at), ..self }
    }

    pub fn log_group(self, log_group: String) -> (next: FeedbackBuilder)
        ensures
            next == (FeedbackBuilder { log_group: Some(log_group), ..self }),
    {
        FeedbackBuilder { log_group: Some(log_group), ..self }
    }

    pub fn message(self, message: String) -> (next: FeedbackBuilder)
        ensures
            next == (FeedbackBuilder { message: Some(message), ..self }),
    {
        FeedbackBuilder { message: Some(message), ..self }
    }

    pub fn needs_notification(self, needs_notification: bool) -> (next: FeedbackBuilder)
        ensures
            next == (FeedbackBuilder { needs_notification: Some(needs_notification), ..self }),
    {
        FeedbackBuilder { needs_notification: Some(needs_notification), ..self }
    }

    pub fn reason(self, reason: Option<String>) -> (next: FeedbackBuilder)
        ensures
            next == (FeedbackBuilder { reason: Some(reason), ..self }),
    {
        FeedbackBuilder { reason: Some(reason), ..self }
    }

    /// The record, once every field was given.
    pub fn build(self) -> (feedback: Feedback)
        requires
            self.complete(),
        ensures
            feedback == (Feedback {
                id: self.id->0,
                created_at: self.created_at->0,
                log_group: self.log_group->0,
                message: self.message->0,
                needs_notification: self.needs_notification->0,
                reason: self.reason->0,
            }),
    {
        Feedback {
            id: self.id.unwrap(),
            created_at: self.created_at.unwrap(),
            log_group: self.log_group.unwrap(),
            message: self.message.unwrap(),
            needs_notification: self.needs_notification.unwrap(),
            reason: self.reason.unwrap(),
        }
    }
}

impl Feedback {
    /// Begins a record without any field.
    pub fn builder() -> (builder: FeedbackBuilder)
        ensures
            builder == (FeedbackBuilder {
                id: None,
                created_at: None,
                log_group: None,
                message: None,
                needs_notification: None,
                reason: None,
            }),
    {
        FeedbackBuilder {
            id: None,
            created_at: None,
            log_group: None,
            message: None,
            needs_notification: None,
            reason: None,
        }
    }

    pub fn created_at(&self) -> (created_at: &Timestamp)
        ensures
            *created_at == self@.created_at,
    {
        &self.created_at
    }

    pub fn message(&self) -> (message: &str)
        ensures
            message@ == self@.message,
    {
        self.message.as_str()
    }

    pub fn needs_notification(&self) -> (needed: bool)
        ensures
            needed == self@.needs_notification,
    {
        self.needs_notification
    }

    pub fn reason(&self) -> (reason: Option<&String>)
        ensures
            match reason {
                Some(r) => self@.reason == Some(r@),
                None => self@.reason is None,
            },
    {
        self.reason.as_ref()
    }
}

} // verus!
