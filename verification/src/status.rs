//! Interpretation of the return code of a transport operation.

use crate::error::SrtError;
use vstd::prelude::*;

verus! {

/// The return code of an operation that succeeded.
pub const SRT_OK: i32 = 0;

/// The return code of an operation that failed; the thread's last-error
/// number then says how.
pub const SRT_ERROR: i32 = -1;

/// Whether a return code is one of the two that the calling convention
/// allows.
pub open spec fn is_return_code(return_code: int) -> bool {
    return_code == SRT_OK || return_code == SRT_ERROR
}

/// Whether the outcome of an operation can be interpreted: the return code
/// is one of the two allowed and, where it signals failure, the last-error
/// number is one that the transport defines.
pub open spec fn is_outcome(return_code: int, last_error: int) -> bool {
    &&& is_return_code(return_code)
    &&& return_code == SRT_ERROR ==> SrtError::is_errno(last_error)
}

/// Interprets the return code of an operation that has just completed.
///
/// `ok` is what the caller gets on success. `last_error` is the thread's
/// last-error number, read right after the operation and before any other
/// call into the transport on that thread; it is looked at only where the
/// return code signals failure.
pub fn handle_result<T>(ok: T, return_code: i32, last_error: i32) -> (r: Result<T, SrtError>)
    requires
        is_outcome(return_code as int, last_error as int),
    ensures
        return_code == SRT_OK ==> r == Ok::<T, SrtError>(ok),
        return_code == SRT_ERROR ==> r == Err::<T, SrtError>(
            SrtError::classify(last_error as int).unwrap(),
        ),
        return_code == SRT_ERROR ==> (r matches Err(e) && e.errno() == last_error
            && e.is_unrefined()),
{
    if return_code == SRT_OK {
        Ok(ok)
    } else if return_code == SRT_ERROR {
        Err(SrtError::from(last_error))
    } else {
        unreached()
    }
}

/// Tells whether `handle_result` can take this outcome, so that a caller
/// can stop on one that breaks the calling convention.
pub fn can_handle(return_code: i32, last_error: i32) -> (r: bool)
    ensures
        r == is_outcome(return_code as int, last_error as int),
{
    return_code == SRT_OK || (return_code == SRT_ERROR && SrtError::from_errno(
        last_error,
    ).is_some())
}

} // verus!
