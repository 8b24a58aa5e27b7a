//! Paged data reads and counts: they run under a fixed timeout and cannot
//! be cancelled by a token.

use crate::commands::query::{race_result, Completion};
use crate::error::AppError;
use vstd::prelude::*;

verus! {

/// The timeout of a paged data read, in seconds.
pub const DEFAULT_DATA_TIMEOUT_SECS: u64 = 30;

/// The result of a paged data read or a count, by what ended the race
/// between the read and the timer: the read's own result, or
/// `QueryTimeout` with the fixed timeout.
pub fn finish_data_read<T>(completion: Completion<T>) -> (result: Result<T, AppError>)
    ensures
        result == race_result(DEFAULT_DATA_TIMEOUT_SECS, completion),
{
    match completion {
        Completion::Finished(result) => result,
        Completion::TimedOut => Err(AppError::QueryTimeout(DEFAULT_DATA_TIMEOUT_SECS)),
        Completion::Cancelled => Err(AppError::QueryCancelled),
    }
}

} // verus!
