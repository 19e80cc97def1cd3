//! Decides, for each error log line of a monitored service, whether a human is
//! to be alerted in the chat, and lets humans correct later decisions by
//! giving feedback on the alerts.
//!
//! The library holds the decisions and nothing else. It never talks to the
//! store, to the judgment service or to the chat platform: it describes the
//! requests to make and reads the answers it is handed.
//!
//! - [`interface`]: the webhook of the chat platform: the signature check in
//!   front of it, the payloads it receives, and what is to be done about them.
//! - [`application`]: the two workflows, and the life of an alert.
//! - [`infrastructure`]: the judgment request and its verdict, the pages of
//!   the feedback store, the messages and forms shown in the chat with the
//!   state token carried through them, and the secret bundle.
//! - [`domain`]: the feedback record.
//! - [`json`], [`encoding`], [`text`], [`util`]: JSON documents, base64 and
//!   gzip, hexadecimal and decimal text, the clock.

pub mod application;
pub mod domain;
pub mod encoding;
pub mod infrastructure;
pub mod interface;
pub mod json;
pub mod text;
pub mod util;
