//! What the kernels of the Unix family have in common: how a system call
//! reports its outcome.

use crate::error::Error;
use crate::unit;
use vstd::prelude::*;

verus! {

/// The error number for a call that a signal interrupted.
pub const EINTR: i32 = 4;

/// The error that stands for the kernel's error number `errno`.
pub open spec fn spec_os_error(errno: i32) -> Error {
    if errno == EINTR {
        Error::Signal { code: errno }
    } else {
        Error::Os { code: errno }
    }
}

/// The error that stands for the kernel's error number `errno`.
#[verifier::when_used_as_spec(spec_os_error)]
pub fn os_error(errno: i32) -> (error: Error)
    ensures
        error == spec_os_error(errno),
{
    if errno == EINTR {
        Error::Signal { code: errno }
    } else {
        Error::Os { code: errno }
    }
}

/// What came back from one system call: its return value, and the error
/// number the kernel left behind, which means something only when the
/// return value is negative.
#[derive(Clone, Copy, Debug, PartialEq, Eq, Structural)]
pub struct Reply {
    pub ret: i32,
    pub errno: i32,
}

impl Reply {
    /// The value the call produced, or the error that made it fail. A call
    /// has failed exactly when its return value is negative.
    pub open spec fn outcome(self) -> Result<i32, Error> {
        if self.ret < 0 {
            Err(os_error(self.errno))
        } else {
            Ok(self.ret)
        }
    }

    /// The value the call produced, or the error that made it fail.
    pub fn result(self) -> (result: Result<i32, Error>)
        ensures
            result == self.outcome(),
    {
        if self.ret < 0 {
            Err(os_error(self.errno))
        } else {
            Ok(self.ret)
        }
    }

    /// Success without a value, or the error that made the call fail.
    pub fn done(self) -> (result: Result<(), Error>)
        ensures
            result == unit(self.outcome()),
    {
        if self.ret < 0 {
            Err(os_error(self.errno))
        } else {
            Ok(())
        }
    }
}

/// The number of events to ask the kernel for when the buffer has room for
/// `capacity`: all of them, as far as the kernel's counter reaches.
pub open spec fn spec_max_events(capacity: usize) -> i32 {
    if capacity > i32::MAX {
        i32::MAX
    } else {
        capacity as i32
    }
}

/// The number of events to ask the kernel for when the buffer has room for
/// `capacity`.
#[verifier::when_used_as_spec(spec_max_events)]
pub fn max_events(capacity: usize) -> (n: i32)
    ensures
        n == spec_max_events(capacity),
{
    if capacity > i32::MAX as usize {
        i32::MAX
    } else {
        capacity as i32
    }
}

} // verus!
