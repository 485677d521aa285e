//! Answers: what comes back for a request.
//!
//! A request is answered by a status code or by nothing. A question is
//! answered by the value asked for or by the code of the failure, never by
//! both; that is a `Result`, and needs no type of its own.

use vstd::prelude::*;
use crate::error::ErrorCode;

verus! {

/// The answer to one request.
#[derive(Debug, Copy, Clone, PartialEq, Eq, Structural)]
pub enum Reply {
    /// The request has no answer.
    Done,
    /// The status code of the request.
    Code(ErrorCode),
}

impl Reply {
    /// The status code that the answer carries: the code itself, or success
    /// where nothing came back.
    pub open spec fn code_value(self) -> ErrorCode {
        match self {
            Reply::Code(code) => code,
            Reply::Done => ErrorCode::OK,
        }
    }

    /// The status code that the answer carries.
    pub fn code(&self) -> (r: ErrorCode)
        ensures
            r == self.code_value(),
    {
        match self {
            Reply::Code(code) => *code,
            Reply::Done => ErrorCode::OK,
        }
    }
}

} // verus!
