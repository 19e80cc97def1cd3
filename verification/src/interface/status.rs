//! The statuses with which the webhook answers. It answers with a bare
//! status and no body.

use vstd::prelude::*;

verus! {

/// The status of an answer of the webhook.
#[derive(Debug, Clone, Copy, PartialEq, Eq, Structural)]
pub enum StatusCode {
    /// 200: the interaction was handled, or needs no handling.
    Success,
    /// 400: the request cannot be read.
    BadRequest,
    /// 401: the request is not signed as it should be.
    Unauthorized,
    /// 500: handling the interaction failed.
    InternalServerError,
}

impl StatusCode {
    /// The number of the status.
    pub open spec fn code(self) -> int {
        match self {
            StatusCode::Success => 200,
            StatusCode::BadRequest => 400,
            StatusCode::Unauthorized => 401,
            StatusCode::InternalServerError => 500,
        }
    }

    /// The number of the status.
    pub fn as_u16(&self) -> (code: u16)
        ensures
            code == self.code(),
    {
        match self {
            StatusCode::Success => 200,
            StatusCode::BadRequest => 400,
            StatusCode::Unauthorized => 401,
            StatusCode::InternalServerError => 500,
        }
    }
}

} // verus!
