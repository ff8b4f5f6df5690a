use vstd::prelude::*;

verus! {

/// How a call into the resource backend failed.
#[derive(Clone, Copy, Debug, PartialEq, Eq, Structural)]
pub enum BackendError {
    /// The daemon could not be reached.
    Unreachable,
    /// The daemon refused the credentials.
    Unauthorized,
    /// The target resource does not exist (any more).
    NotFound,
    /// The target is in a state that forbids the call (already running, already stopped).
    Conflict,
    /// Any other failure.
    Unknown,
}

/// The errors a resource page reports to its host.
#[derive(Clone, Copy, Debug, PartialEq, Eq, Structural)]
pub enum PageError {
    /// Listing or mutating failed for a reason on the daemon's side; the previous
    /// display is kept and the user may retry.
    BackendUnavailable,
    /// The target of a mutation vanished.
    NotFound,
    /// The target of a mutation was in a state that forbids it.
    Conflict,
    /// The confirmation dialog was driven out of order.
    InvalidTransition,
    /// A mutation was requested while another one is still outstanding.
    ActionInProgress,
}

/// The backend error that an HTTP status code of the daemon stands for.
pub open spec fn status_error(code: u16) -> BackendError {
    if code == 401 || code == 403 {
        BackendError::Unauthorized
    } else if code == 404 {
        BackendError::NotFound
    } else if code == 304 || code == 409 {
        BackendError::Conflict
    } else {
        BackendError::Unknown
    }
}

/// The page error that a failed mutation is reported as.
pub open spec fn mutation_error_spec(e: BackendError) -> PageError {
    match e {
        BackendError::NotFound => PageError::NotFound,
        BackendError::Conflict => PageError::Conflict,
        _ => PageError::BackendUnavailable,
    }
}

/// Classifies an error status returned by the daemon. The daemon answers 304 when
/// a container is already in the requested state, 409 when the request conflicts
/// with the container's state.
pub fn classify_status(code: u16) -> (r: BackendError)
    ensures
        r == status_error(code),
{
    if code == 401 || code == 403 {
        BackendError::Unauthorized
    } else if code == 404 {
        BackendError::NotFound
    } else if code == 304 || code == 409 {
        BackendError::Conflict
    } else {
        BackendError::Unknown
    }
}

/// Maps a failed mutation to the error the page reports: a vanished or conflicting
/// target is named, every other failure is the backend being unavailable.
pub fn mutation_error(e: BackendError) -> (r: PageError)
    ensures
        r == mutation_error_spec(e),
{
    match e {
        BackendError::NotFound => PageError::NotFound,
        BackendError::Conflict => PageError::Conflict,
        _ => PageError::BackendUnavailable,
    }
}

} // verus!
