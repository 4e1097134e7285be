//! Error kinds for scheduling operations, and the mapping from OS error
//! numbers to them.

use vstd::prelude::*;

verus! {

/// Why a scheduling operation failed.
#[derive(Copy, Clone, Debug, PartialEq, Eq, Structural)]
pub enum SchedError {
    /// A value lies outside the numeric range for the given policy or field.
    InvalidArgument,
    /// The caller lacks the privilege to affect the target.
    PermissionDenied,
    /// The identifier no longer refers to a live entity.
    NoSuchTarget,
    /// Process-table or executable-path resolution failure.
    IoError,
}

/// `EPERM`: operation not permitted.
pub const ERRNO_PERM: i32 = 1;

/// `ESRCH`: no such process.
pub const ERRNO_SRCH: i32 = 3;

/// `EACCES`: permission denied.
pub const ERRNO_ACCES: i32 = 13;

/// `EINVAL`: invalid argument.
pub const ERRNO_INVAL: i32 = 22;

/// The error kind that an OS error number denotes.
pub open spec fn errno_error(errno: i32) -> SchedError {
    if errno == ERRNO_PERM || errno == ERRNO_ACCES {
        SchedError::PermissionDenied
    } else if errno == ERRNO_SRCH {
        SchedError::NoSuchTarget
    } else if errno == ERRNO_INVAL {
        SchedError::InvalidArgument
    } else {
        SchedError::IoError
    }
}

/// Maps the error number a failed scheduling syscall left behind to the
/// error kind it denotes.
pub fn error_from_errno(errno: i32) -> (e: SchedError)
    ensures
        e == errno_error(errno),
{
    if errno == ERRNO_PERM || errno == ERRNO_ACCES {
        SchedError::PermissionDenied
    } else if errno == ERRNO_SRCH {
        SchedError::NoSuchTarget
    } else if errno == ERRNO_INVAL {
        SchedError::InvalidArgument
    } else {
        SchedError::IoError
    }
}

} // verus!
