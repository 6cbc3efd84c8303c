//! Status codes of remote calls and the split between benign and fatal ones.

use vstd::prelude::*;

verus! {

/// The status code that a remote call reports.
#[derive(Debug, Clone, Copy, PartialEq, Eq, Structural)]
pub enum Code {
    Success,
    Cancelled,
    Unknown,
    InvalidArgument,
    DeadlineExceeded,
    NotFound,
    AlreadyExists,
    PermissionDenied,
    ResourceExhausted,
    FailedPrecondition,
    Aborted,
    OutOfRange,
    Unimplemented,
    Internal,
    Unavailable,
    DataLoss,
    Unauthenticated,
}

/// A failed remote call: its code and the message that came with it.
#[derive(Debug, Clone)]
pub struct Status {
    pub code: Code,
    pub message: String,
}

/// A benign status leaves the connection token valid: the session may resume
/// from the registered stage.
pub open spec fn benign_code(c: Code) -> bool {
    c == Code::Success || c == Code::ResourceExhausted
}

impl Status {
    pub fn new(code: Code, message: String) -> (r: Status)
        ensures
            r.code == code,
            r.message@ == message@,
    {
        Status { code, message }
    }

    /// Whether this status leaves the connection token valid.
    pub fn is_benign(&self) -> (r: bool)
        ensures
            r == benign_code(self.code),
    {
        match self.code {
            Code::Success | Code::ResourceExhausted => true,
            _ => false,
        }
    }
}

} // verus!
