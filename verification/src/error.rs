//! Typed failures and the host's integer status convention.
//!
//! Inside the adapter every outcome is a `Result<(), Error>`. The host only
//! understands integers: zero for success, a negative error number otherwise.
//! This module is the single place where one is turned into the other.

use vstd::prelude::*;

verus! {

/// Error number reported when a driver does not implement an operation.
pub const ENOSYS: i32 = 38;

/// Error number reported for a null handle or a malformed buffer length.
pub const EINVAL: i32 = 22;

/// Error number reported when the host refused a registration.
pub const EBUSY: i32 = 16;

/// Error number reported for any fault that has no better classification.
pub const EIO: i32 = 5;

/// The ways a capability call or a registration can fail.
#[derive(Clone, Copy, Debug, PartialEq, Eq, Structural)]
pub enum Error {
    /// The driver does not implement the operation.
    Unsupported,
    /// A handle was null or a stated buffer length was out of range.
    InvalidArgument,
    /// The host's registration primitive refused the descriptor.
    HostRejected,
    /// An unexpected fault while bridging a call.
    Internal,
}

impl Error {
    /// The status the host sees for this failure: always negative, and
    /// different for each kind.
    pub open spec fn errno(self) -> int {
        match self {
            Error::Unsupported => -(ENOSYS as int),
            Error::InvalidArgument => -(EINVAL as int),
            Error::HostRejected => -(EBUSY as int),
            Error::Internal => -(EIO as int),
        }
    }

    /// Returns the host status for this failure.
    pub fn to_errno(&self) -> (code: i32)
        ensures
            code == self.errno(),
    {
        match self {
            Error::Unsupported => -ENOSYS,
            Error::InvalidArgument => -EINVAL,
            Error::HostRejected => -EBUSY,
            Error::Internal => -EIO,
        }
    }
}

/// The status the host sees for a typed outcome: zero for success, the
/// failure's error number otherwise.
pub open spec fn host_status(outcome: Result<(), Error>) -> int {
    match outcome {
        Ok(_) => 0,
        Err(e) => e.errno(),
    }
}

/// Whether `code` is a status that some typed outcome translates to.
pub open spec fn is_host_status(code: int) -> bool {
    exists|outcome: Result<(), Error>| code == #[trigger] host_status(outcome)
}

/// Translates a typed outcome into the host's integer convention. The
/// translation is total: every outcome has a status.
pub fn from_result(outcome: Result<(), Error>) -> (code: i32)
    ensures
        code == host_status(outcome),
{
    match outcome {
        Ok(_) => 0,
        Err(e) => e.to_errno(),
    }
}

/// Classifies the status returned by the host's registration primitive:
/// zero is acceptance, anything else a refusal.
pub fn to_result(status: i32) -> (outcome: Result<(), Error>)
    ensures
        outcome == (if status == 0 {
            Ok::<(), Error>(())
        } else {
            Err::<(), Error>(Error::HostRejected)
        }),
{
    if status == 0 {
        Ok(())
    } else {
        Err(Error::HostRejected)
    }
}

/// The statuses the host can be given are zero and the four error numbers.
pub proof fn host_statuses(code: int)
    ensures
        is_host_status(code) <==> code == 0 || code == -(ENOSYS as int) || code == -(EINVAL as int)
            || code == -(EBUSY as int) || code == -(EIO as int),
{
    if is_host_status(code) {
        let outcome = choose|outcome: Result<(), Error>| code == #[trigger] host_status(outcome);
        assert(code == host_status(outcome));
    }
    assert(host_status(Ok(())) == 0);
    assert(host_status(Err(Error::Unsupported)) == -(ENOSYS as int));
    assert(host_status(Err(Error::InvalidArgument)) == -(EINVAL as int));
    assert(host_status(Err(Error::HostRejected)) == -(EBUSY as int));
    assert(host_status(Err(Error::Internal)) == -(EIO as int));
}

/// Every failure kind has a negative status, and no two kinds share one.
pub proof fn errno_negative_and_distinct(a: Error, b: Error)
    ensures
        a.errno() < 0,
        a.errno() == b.errno() <==> a == b,
{
}

/// The translation loses nothing: two outcomes with the same status are the
/// same outcome, so zero is reported for success and for success only.
pub proof fn host_status_injective(a: Result<(), Error>, b: Result<(), Error>)
    ensures
        host_status(a) == host_status(b) <==> a == b,
        host_status(a) == 0 <==> a is Ok,
        host_status(a) <= 0,
{
    if let Ok(x) = a {
        if let Ok(y) = b {
            assert(x == y);
        }
    }
}

} // verus!
