//! A minimal, portable I/O readiness core.
//!
//! The library decides; it performs no system call itself. Every operation
//! yields the calls to make, as plain values, and reads what came back from
//! them. Three kernels are covered, each in a module of its own: epoll in
//! [`linux`], kqueue in [`macos`] and completion ports in [`windows`].

use std::sync::atomic::AtomicBool;
use std::sync::Arc;
use vstd::prelude::*;

pub mod error;
pub mod events;
mod flag;
pub mod interests;
pub mod linux;
pub mod macos;
pub mod token;
pub mod unix;
pub mod windows;

pub use error::Error;
pub use error::ErrorKind;
pub use interests::Interests;
pub use token::TokenAllocator;

verus! {

/// Identifies one registration.
pub type Token = usize;

/// Holds the selector of a poll instance.
#[derive(Debug)]
pub struct Registry<S> {
    pub(crate) selector: S,
}

/// The event queue: a selector, and the flag that tells everyone holding a
/// registrator of it whether the queue has been closed.
#[derive(Debug)]
pub struct Poll<S> {
    pub(crate) registry: Registry<S>,
    pub(crate) is_poll_dead: Arc<AtomicBool>,
}

impl<S> Poll<S> {
    /// The selector this instance owns.
    pub closed spec fn spec_selector(&self) -> &S {
        &self.registry.selector
    }

    /// The selector this instance owns.
    #[verifier::when_used_as_spec(spec_selector)]
    pub fn selector(&self) -> (selector: &S)
        ensures
            selector == self.spec_selector(),
    {
        &self.registry.selector
    }

    /// The flag this instance shares with its registrators.
    pub closed spec fn flag(&self) -> Arc<AtomicBool> {
        self.is_poll_dead
    }
}

/// What a poll does once a wait has come back.
#[derive(Clone, Copy, Debug, PartialEq, Eq)]
pub enum PollStep {
    /// The wait was interrupted: wait again.
    Retry,
    /// The poll is over, with this result.
    Done(Result<usize, Error>),
}

/// The timeout a poll hands to its selector: no timeout stays none, and a
/// negative one counts as zero.
pub open spec fn spec_clamp_timeout(timeout_ms: Option<i32>) -> Option<i32> {
    match timeout_ms {
        None => None,
        Some(n) => Some(
            if n < 0 {
                0i32
            } else {
                n
            },
        ),
    }
}

/// The timeout a poll hands to its selector: no timeout stays none, and a
/// negative one counts as zero.
#[verifier::when_used_as_spec(spec_clamp_timeout)]
pub fn clamp_timeout(timeout_ms: Option<i32>) -> (timeout: Option<i32>)
    ensures
        timeout == spec_clamp_timeout(timeout_ms),
{
    match timeout_ms {
        None => None,
        Some(n) => Some(
            if n < 0 {
                0
            } else {
                n
            },
        ),
    }
}

/// What a poll does after its selector has returned `selected`, given
/// whether the instance was found closed and how many events are held.
/// An interrupted wait is tried again and any other failure is passed on.
/// After a wait that succeeded, a closed instance ends the poll as
/// interrupted; otherwise the poll reports the number of events.
pub open spec fn spec_poll_outcome(selected: Result<(), Error>, dead: bool, n: usize) -> PollStep {
    match selected {
        Err(error) => if error.is_interrupted() {
            PollStep::Retry
        } else {
            PollStep::Done(Err(error))
        },
        Ok(_) => if dead {
            PollStep::Done(Err(Error::PollClosed))
        } else {
            PollStep::Done(Ok(n))
        },
    }
}

/// What a poll does after its selector has returned `selected`, given
/// whether the instance was found closed and how many events are held.
#[verifier::when_used_as_spec(spec_poll_outcome)]
pub fn poll_outcome(selected: Result<(), Error>, dead: bool, n: usize) -> (step: PollStep)
    ensures
        step == spec_poll_outcome(selected, dead, n),
{
    match selected {
        Err(error) => if error.is_interrupted() {
            PollStep::Retry
        } else {
            PollStep::Done(Err(error))
        },
        Ok(_) => if dead {
            PollStep::Done(Err(Error::PollClosed))
        } else {
            PollStep::Done(Ok(n))
        },
    }
}

/// A result with its value left out.
pub open spec fn unit<T>(result: Result<T, Error>) -> Result<(), Error> {
    match result {
        Ok(_) => Ok(()),
        Err(error) => Err(error),
    }
}

/// A call, if there is one, together with the token it registers.
pub open spec fn tagged<C>(token: Token, call: Result<C, Error>) -> Result<(Token, C), Error> {
    match call {
        Ok(call) => Ok((token, call)),
        Err(error) => Err(error),
    }
}

} // verus!
