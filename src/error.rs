//! The error kinds that every operation of the crate reports.

use vstd::prelude::*;

verus! {

/// The status code by which the storage engine reports success.
pub const RESULT_OK: i32 = 0;

/// Why an operation failed.
#[derive(PartialEq, Eq, Structural, Clone, Copy, Debug)]
pub enum GsError {
    /// The connection to the cluster could not be established; carries the
    /// engine's status code.
    Connection(i32),
    /// A value, key or option does not fit the schema or the operation.
    Convert,
    /// Reserved: absence is reported as an empty result, not as this error.
    NotFound,
    /// The storage engine refused the operation; carries its status code.
    Engine(i32),
    /// A cursor was asked for an element past its last one.
    Exhausted,
    /// The operation does not apply to this kind of value or cursor.
    Unsupported,
}

/// The result of an engine call that reported `status`.
pub open spec fn status_result(status: i32) -> Result<(), GsError> {
    if status == RESULT_OK {
        Ok(())
    } else {
        Err(GsError::Engine(status))
    }
}

/// Turns an engine status code into a result: success, or the engine's error.
pub fn check_status(status: i32) -> (r: Result<(), GsError>)
    ensures
        r == status_result(status),
{
    if status == RESULT_OK {
        Ok(())
    } else {
        Err(GsError::Engine(status))
    }
}

} // verus!
