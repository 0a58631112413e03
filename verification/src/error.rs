//! The uniform error shape shared by every platform.

use vstd::prelude::*;

verus! {

/// The broad category an [`Error`] belongs to.
#[derive(Clone, Copy, Debug, PartialEq, Eq, Structural)]
pub enum ErrorKind {
    /// The operating system refused a call.
    Os,
    /// A wait was cut short, or the poll instance has been closed.
    Interrupted,
    /// The request names a feature that is not offered.
    Unimplemented,
}

/// Everything that can go wrong in this library.
#[derive(Clone, Copy, Debug, PartialEq, Eq, Structural)]
pub enum Error {
    /// A system call failed; `code` is the error number the kernel reported.
    Os { code: i32 },
    /// A system call returned early because it was interrupted; `code` is
    /// the error number the kernel reported. Callers may simply try again.
    Signal { code: i32 },
    /// A `poll` woke up and found its instance closed.
    PollClosed,
    /// A registrator was used after the instance it belongs to was closed.
    InstanceClosed,
    /// A completion-port registrator was used after its instance was closed.
    InstanceDead,
    /// Interest in writability was requested.
    Unimplemented,
}

impl Error {
    /// The category of this error.
    pub open spec fn spec_kind(self) -> ErrorKind {
        match self {
            Error::Os { .. } => ErrorKind::Os,
            Error::Signal { .. } => ErrorKind::Interrupted,
            Error::PollClosed => ErrorKind::Interrupted,
            Error::InstanceClosed => ErrorKind::Interrupted,
            Error::InstanceDead => ErrorKind::Interrupted,
            Error::Unimplemented => ErrorKind::Unimplemented,
        }
    }

    /// Whether this error is of the "interrupted" category.
    pub open spec fn spec_is_interrupted(self) -> bool {
        self.spec_kind() == ErrorKind::Interrupted
    }

    /// The error number reported by the kernel, if this error came from it.
    pub open spec fn spec_raw_os_error(self) -> Option<i32> {
        match self {
            Error::Os { code } => Some(code),
            Error::Signal { code } => Some(code),
            _ => None,
        }
    }

    /// The text shown for this error.
    pub open spec fn spec_message(self) -> Seq<char> {
        match self {
            Error::Os { .. } => "operating system error"@,
            Error::Signal { .. } => "interrupted system call"@,
            Error::PollClosed => "Poll closed."@,
            Error::InstanceClosed => "Poll instance closed."@,
            Error::InstanceDead => "Poll instance is dead."@,
            Error::Unimplemented => "not implemented"@,
        }
    }

    /// The category of this error.
    #[verifier::when_used_as_spec(spec_kind)]
    pub fn kind(self) -> (kind: ErrorKind)
        ensures
            kind == self.spec_kind(),
    {
        match self {
            Error::Os { .. } => ErrorKind::Os,
            Error::Unimplemented => ErrorKind::Unimplemented,
            _ => ErrorKind::Interrupted,
        }
    }

    /// Whether this error is of the "interrupted" category.
    #[verifier::when_used_as_spec(spec_is_interrupted)]
    pub fn is_interrupted(self) -> (yes: bool)
        ensures
            yes == self.spec_is_interrupted(),
    {
        match self {
            Error::Os { .. } => false,
            Error::Unimplemented => false,
            _ => true,
        }
    }

    /// The error number reported by the kernel, if this error came from it.
    #[verifier::when_used_as_spec(spec_raw_os_error)]
    pub fn raw_os_error(self) -> (code: Option<i32>)
        ensures
            code == self.spec_raw_os_error(),
    {
        match self {
            Error::Os { code } => Some(code),
            Error::Signal { code } => Some(code),
            _ => None,
        }
    }

    /// The text shown for this error.
    pub fn message(self) -> (text: &'static str)
        ensures
            text@ == self.spec_message(),
    {
        match self {
            Error::Os { .. } => "operating system error",
            Error::Signal { .. } => "interrupted system call",
            Error::PollClosed => "Poll closed.",
            Error::InstanceClosed => "Poll instance closed.",
            Error::InstanceDead => "Poll instance is dead.",
            Error::Unimplemented => "not implemented",
        }
    }
}

} // verus!
