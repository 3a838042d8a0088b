//! The one error type of the library.
use crate::text::owned;
use crate::types::Status;
use vstd::prelude::*;

verus! {

/// A status code with a message for the operator.
#[derive(Debug)]
pub struct APWError {
    pub code: Status,
    pub message: String,
}

impl APWError {
    /// An error of the given code and message.
    pub fn new(code: Status, message: &str) -> (r: APWError)
        ensures
            r.code == code,
            r.message@ == message@,
    {
        APWError { code, message: owned(message) }
    }
}

/// Whether a result is an error of the given code and message.
pub open spec fn fails<T>(r: Result<T>, code: Status, message: Seq<char>) -> bool {
    r is Err && r->Err_0.code == code && r->Err_0.message@ == message
}

pub type Result<T> = std::result::Result<T, APWError>;

} // verus!
