//! Errors and the interpretation of OpenVX status codes.
use vstd::prelude::*;

use crate::consts::VX_SUCCESS;

verus! {

/// The kinds of error the library reports.
#[derive(Debug, Clone, Copy, PartialEq, Eq, Structural)]
pub enum ErrorKind {
    /// Every failing OpenVX status is reported as this kind.
    ErrorNotImplemented,
}

/// Maps a failing OpenVX status to the error the library reports for it.
pub fn convert_error(err: i32) -> (kind: ErrorKind)
    ensures
        kind == ErrorKind::ErrorNotImplemented,
{
    ErrorKind::ErrorNotImplemented
}

/// What the library makes of a status that OpenVX returned.
pub open spec fn status_outcome(status: i32) -> Result<(), ErrorKind> {
    if status == VX_SUCCESS {
        Ok(())
    } else {
        Err(ErrorKind::ErrorNotImplemented)
    }
}

/// Succeeds exactly when `status` is `VX_SUCCESS`.
pub fn check_status(status: i32) -> (r: Result<(), ErrorKind>)
    ensures
        r == status_outcome(status),
{
    if status != VX_SUCCESS {
        Err(convert_error(status))
    } else {
        Ok(())
    }
}

/// A status is accepted exactly when it is `VX_SUCCESS`; every other status
/// is reported as the library's error.
pub proof fn lemma_status_outcome(status: i32)
    ensures
        status_outcome(status) is Ok <==> status == VX_SUCCESS,
        status_outcome(status) matches Err(e) ==> e == ErrorKind::ErrorNotImplemented,
{
}

} // verus!
