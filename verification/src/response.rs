//! What an outcome looks like on the wire: the status of the answer and the
//! text that stands for every failure.

use vstd::prelude::*;
use crate::evaluation::EvaluationError;

verus! {

/// The status of an answer that carries a result.
pub const STATUS_OK: u16 = 200;

/// The status of every answer that carries none.
pub const STATUS_FAILURE: u16 = 500;

/// The body of every answer that carries no result.
pub const FAILURE_BODY: &'static str = "Something went wrong.";

/// The status that answers `outcome`: success for a result, and the one
/// failure status for every error, whichever it is.
pub fn status_of<T>(outcome: &Result<T, EvaluationError>) -> (status: u16)
    ensures
        status == (if outcome is Ok {
            STATUS_OK
        } else {
            STATUS_FAILURE
        }),
{
    match outcome {
        Ok(_) => STATUS_OK,
        Err(_) => STATUS_FAILURE,
    }
}

} // verus!
