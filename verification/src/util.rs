//! Small helpers: reading a boolean from its text, and the clock.

use crate::text::same_text;
use vstd::prelude::*;

verus! {

/// The boolean that a text stands for: `true` for "true", `false` for "false",
/// nothing for any other text.
pub open spec fn text_bool(s: Seq<char>) -> Option<bool> {
    if s == "true"@ {
        Some(true)
    } else if s == "false"@ {
        Some(false)
    } else {
        None
    }
}

/// Reads a boolean that is written as the text "true" or "false".
pub fn deserialize_bool(s: &str) -> (value: Option<bool>)
    ensures
        value == text_bool(s@),
{
    if same_text(s, "true") {
        Some(true)
    } else if same_text(s, "false") {
        Some(false)
    } else {
        None
    }
}

/// What `chrono` writes for the instant `secs` seconds after the Unix epoch, in
/// UTC, as RFC 3339 with whole seconds and `Z` for the offset; `None` where
/// `chrono` cannot represent the instant.
pub uninterp spec fn rfc3339_utc(secs: int) -> Option<Seq<char>>;

/// Calls `chrono::DateTime::from_timestamp` with no nanoseconds and, where
/// that gives an instant, `DateTime::to_rfc3339_opts` with
/// `SecondsFormat::Secs` and `Z`. The contract only names the outcome.
#[verifier::external_body]
pub(crate) fn rfc3339_of_timestamp(secs: i64) -> (text: Option<String>)
    ensures
        match text {
            Some(t) => rfc3339_utc(secs as int) == Some(t@),
            None => rfc3339_utc(secs as int) is None,
        },
{
    match chrono::DateTime::from_timestamp(secs, 0) {
        Some(instant) => Some(instant.to_rfc3339_opts(chrono::SecondsFormat::Secs, true)),
        None => None,
    }
}

/// Reads the clock: `chrono::Utc::now().timestamp()`, the seconds since the
/// Unix epoch. Which instant is read is left open. Claimed is what holds of
/// every reading: it is an instant that `chrono` can represent, so it has a
/// date. `Utc::now` makes its instant with `DateTime::from_timestamp` from
/// those very seconds, and `timestamp` hands the seconds back. (`Utc::now`
/// does not return on a machine whose clock stands before 1970.)
#[verifier::external_body]
pub(crate) fn now_timestamp() -> (now: i64)
    ensures
        rfc3339_utc(now as int) is Some,
{
    chrono::Utc::now().timestamp()
}

} // verus!
