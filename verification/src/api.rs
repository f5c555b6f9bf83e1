//! What the SBI calls of the monitor hand back to the host.
use vstd::prelude::*;
use crate::error::{error_code, Error};

verus! {

/// The status of a call that must succeed: the code of `Success` when it
/// did; `None` when it failed, which the monitor treats as fatal.
pub fn required_status(result: Result<(), Error>) -> (status: Option<isize>)
    ensures
        result is Ok ==> status == Some(error_code(Error::Success) as isize),
        result is Err ==> status is None,
{
    match result {
        Ok(_) => Some(Error::Success.code()),
        Err(_) => None,
    }
}

/// Whether an error hands control back to the host in an orderly way:
/// the enclave was interrupted, or it calls the host.
pub open spec fn is_suspension(e: Error) -> bool {
    e == Error::Interrupted || e == Error::EdgeCallHost
}

/// The status of a call that may suspend the enclave: the code of
/// `Success` when it succeeded, the error's own code when it suspended the
/// enclave; `None` for any other failure, which the monitor treats as
/// fatal.
pub fn suspend_status(result: Result<(), Error>) -> (status: Option<isize>)
    ensures
        result is Ok ==> status == Some(error_code(Error::Success) as isize),
        result matches Err(e) ==> if is_suspension(e) {
            status == Some(error_code(e) as isize)
        } else {
            status is None
        },
{
    match result {
        Ok(_) => Some(Error::Success.code()),
        Err(err) => {
            if err == Error::Interrupted || err == Error::EdgeCallHost {
                Some(err.code())
            } else {
                None
            }
        },
    }
}

} // verus!
