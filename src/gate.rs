use crate::error::{is_io_error, Error, IoFailure};
use vstd::prelude::*;

verus! {

/// What an existence check concludes from the outcome of reading a path's metadata.
pub open spec fn existence(probe: Result<(), IoFailure>) -> Option<bool> {
    match probe {
        Ok(()) => Some(true),
        Err(IoFailure::NotFound(_)) => Some(false),
        Err(IoFailure::Other(_)) => None,
    }
}

/// Whether a removal counts as done: a path that was already gone is no failure.
pub open spec fn removal_done(outcome: Result<(), IoFailure>) -> bool {
    !(outcome matches Err(IoFailure::Other(_)))
}

/// Whether a file exists, given the outcome of reading its metadata: a missing
/// file is `false`, any other failure an `IoError`.
pub fn file_exists(probe: Result<(), IoFailure>) -> (r: Result<bool, Error>)
    ensures
        match existence(probe) {
            Some(b) => r == Ok::<bool, Error>(b),
            None => r matches Err(e) && is_io_error(e, probe->Err_0.message()),
        },
{
    match probe {
        Ok(()) => Ok(true),
        Err(IoFailure::NotFound(_)) => Ok(false),
        Err(f) => Err(f.into_error()),
    }
}

/// The result of deleting a file, given the outcome of the removal: a missing
/// file is success, any other failure an `IoError`.
pub fn delete_file(outcome: Result<(), IoFailure>) -> (r: Result<(), Error>)
    ensures
        removal_done(outcome) ==> r is Ok,
        !removal_done(outcome) ==> (r matches Err(e) && is_io_error(e, outcome->Err_0.message())),
{
    match outcome {
        Ok(()) => Ok(()),
        Err(IoFailure::NotFound(_)) => Ok(()),
        Err(f) => Err(f.into_error()),
    }
}

/// Deleting an absent file succeeds, and checking the same path afterwards
/// reports that it does not exist.
pub proof fn deleting_absent_file_is_quiet(missing: IoFailure)
    requires
        missing is NotFound,
    ensures
        removal_done(Err(missing)),
        existence(Err(missing)) == Some(false),
{
}

} // verus!
