//! Outcomes of operations, and the errors that they report.

use vstd::prelude::*;

use crate::text::in_context;

verus! {

/// Says of an outcome that it succeeds exactly when there is no error, and fails with the error
/// otherwise.
pub open spec fn fails_with<T>(outcome: Result<T, String>, error: Option<Seq<char>>) -> bool {
    match outcome {
        Ok(_) => error is None,
        Err(message) => error == Some(message@),
    }
}

/// The error of a single step, if it failed: the cause, in its context.
pub open spec fn step_error<T>(outcome: Result<T, String>, context: Seq<char>) -> Option<
    Seq<char>,
> {
    match outcome {
        Ok(_) => None,
        Err(cause) => Some(in_context(context, cause@)),
    }
}

} // verus!
