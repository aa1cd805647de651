//! Classification of the outcome of one HTTP exchange.
//!
//! The exchange itself is network I/O and lives in the host application;
//! the application hands this module the observable outcome as plain
//! values, and the classification is verified for every such outcome.

use crate::error::MMRSError;
use vstd::prelude::*;

verus! {

/// Maps the outcome of one POST round trip to the library's result: a
/// completed exchange yields the response's status code unchanged,
/// whatever it is, and a transport fault yields `HTTPRequestError`
/// carrying the fault's rendering.
pub fn classify_send_outcome(outcome: Result<u16, String>) -> (r: Result<u16, MMRSError>)
    ensures
        outcome is Ok ==> r == Ok::<u16, MMRSError>(outcome->Ok_0),
        outcome is Err ==> r == Err::<u16, MMRSError>(MMRSError::HTTPRequestError(outcome->Err_0)),
{
    match outcome {
        Ok(code) => Ok(code),
        Err(detail) => Err(MMRSError::HTTPRequestError(detail)),
    }
}

} // verus!
