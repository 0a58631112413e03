//! The selector for kqueue.

use crate::clamp_timeout;
use crate::error::Error;
use crate::events::admitted;
use crate::flag;
use crate::interests::Interests;
use crate::poll_outcome;
use crate::tagged;
use crate::token::TokenAllocator;
use crate::unit;
use crate::unix::max_events;
use crate::unix::Reply;
use crate::PollStep;
use crate::Registry;
use crate::Token;
use std::sync::atomic::AtomicBool;
use std::sync::Arc;
use vstd::prelude::*;

verus! {

pub const EVFILT_READ: i16 = -1;

pub const EVFILT_TIMER: i16 = -7;

pub const EV_ADD: u16 = 0x1;

pub const EV_ENABLE: u16 = 0x4;

pub const EV_ONESHOT: u16 = 0x10;

pub const EV_CLEAR: u16 = 0x20;

/// A descriptor of this family of kernels.
pub type Source = i32;

/// A span of time as the kernel takes it.
#[derive(Clone, Copy, Debug, PartialEq, Eq, Structural)]
pub struct Timespec {
    /// Seconds
    pub tv_sec: isize,
    /// Nanoseconds
    pub v_nsec: usize,
}

/// The whole seconds in `milliseconds`, rounded towards zero.
pub open spec fn whole_seconds(milliseconds: int) -> int {
    if milliseconds >= 0 {
        milliseconds / 1000
    } else {
        -((-milliseconds) / 1000)
    }
}

/// The nanoseconds that make up what `milliseconds` holds beyond its whole
/// seconds. The sign is that of `milliseconds`.
pub open spec fn odd_nanoseconds(milliseconds: int) -> int {
    (milliseconds - 1000 * whole_seconds(milliseconds)) * 1000 * 1000
}

/// How an unsigned machine word takes up `value`: a negative value counts
/// down from one past the greatest word.
pub open spec fn as_word(value: int) -> int {
    if value >= 0 {
        value
    } else {
        usize::MAX + 1 + value
    }
}

impl Timespec {
    /// The span of `milliseconds`. The seconds are rounded towards zero and
    /// the nanoseconds hold the rest; for a negative span that rest is
    /// negative too, and is stored as an unsigned word takes it up.
    pub open spec fn spec_from_millis(milliseconds: i32) -> Timespec {
        Timespec {
            tv_sec: whole_seconds(milliseconds as int) as isize,
            v_nsec: as_word(odd_nanoseconds(milliseconds as int)) as usize,
        }
    }

    /// The span of `milliseconds`.
    #[verifier::when_used_as_spec(spec_from_millis)]
    pub fn from_millis(milliseconds: i32) -> (span: Timespec)
        ensures
            span == Timespec::spec_from_millis(milliseconds),
            milliseconds >= 0 ==> span.tv_sec == milliseconds / 1000 && span.v_nsec == (milliseconds
                % 1000) * 1000 * 1000,
    {
        if milliseconds >= 0 {
            let seconds: i32 = milliseconds / 1000;
            let nanoseconds: i32 = (milliseconds % 1000) * 1000 * 1000;
            Timespec { tv_sec: seconds as isize, v_nsec: nanoseconds as usize }
        } else {
            let span: i64 = -(milliseconds as i64);
            let seconds: i64 = span / 1000;
            let nanoseconds: i64 = (span % 1000) * 1000 * 1000;
            let v_nsec: usize = if nanoseconds == 0 {
                0
            } else {
                usize::MAX - ((nanoseconds - 1) as usize)
            };
            Timespec { tv_sec: (-seconds) as isize, v_nsec }
        }
    }
}

/// One entry of a kqueue: a change to submit, or an event that happened.
#[derive(Clone, Copy, Debug, PartialEq, Eq, Structural)]
pub struct Kevent {
    pub ident: u64,
    pub filter: i16,
    pub flags: u16,
    pub fflags: u32,
    pub data: i64,
    pub udata: u64,
}

/// An event as a wait on this kernel reports it.
pub type Event = Kevent;

impl Event {
    /// The change that asks to be told, once, when `fd` becomes readable,
    /// with `id` as the data to hand back.
    pub open spec fn spec_new_read_event(fd: Source, id: u64) -> Kevent {
        Kevent {
            ident: fd as u64,
            filter: EVFILT_READ,
            flags: EV_ADD | EV_ENABLE | EV_ONESHOT,
            fflags: 0,
            data: 0,
            udata: id,
        }
    }

    /// The change that asks to be told, once, when `fd` becomes readable,
    /// with `id` as the data to hand back.
    #[verifier::when_used_as_spec(spec_new_read_event)]
    pub fn new_read_event(fd: Source, id: u64) -> (event: Kevent)
        ensures
            event == Kevent::spec_new_read_event(fd, id),
    {
        Kevent {
            ident: #[verifier::truncate] (fd as u64),
            filter: EVFILT_READ,
            flags: EV_ADD | EV_ENABLE | EV_ONESHOT,
            fflags: 0,
            data: 0,
            udata: id,
        }
    }

    /// The change that sets a timer which goes off at once: it wakes
    /// whoever waits on the queue. Its data is zero.
    pub open spec fn spec_new_wakeup_event() -> Kevent {
        Kevent {
            ident: 0,
            filter: EVFILT_TIMER,
            flags: EV_ADD | EV_ENABLE | EV_CLEAR,
            fflags: 0,
            data: 0,
            udata: 0,
        }
    }

    /// The change that sets a timer which goes off at once.
    #[verifier::when_used_as_spec(spec_new_wakeup_event)]
    pub fn new_wakeup_event() -> (event: Kevent)
        ensures
            event == Kevent::spec_new_wakeup_event(),
    {
        Kevent {
            ident: 0,
            filter: EVFILT_TIMER,
            flags: EV_ADD | EV_ENABLE | EV_CLEAR,
            fflags: 0,
            data: 0,
            udata: 0,
        }
    }

    /// The entry with every field zero.
    pub fn zero() -> (event: Kevent)
        ensures
            event == (Kevent { ident: 0, filter: 0, flags: 0, fflags: 0, data: 0, udata: 0 }),
    {
        Kevent { ident: 0, filter: 0, flags: 0, fflags: 0, data: 0, udata: 0 }
    }

    /// The token of the registration this event belongs to.
    pub open spec fn spec_id(&self) -> Token {
        self.udata as usize
    }

    /// The token of the registration this event belongs to.
    #[verifier::when_used_as_spec(spec_id)]
    pub fn id(&self) -> (token: Token)
        ensures
            token == self.spec_id(),
    {
        #[verifier::truncate]
        (self.udata as usize)
    }

}

impl Kevent {
    /// The token of the registration this entry belongs to. There always is
    /// one.
    pub fn token(&self) -> (token: Option<Token>)
        ensures
            token == Some(self.id()),
    {
        Some(self.id())
    }
}

/// The buffer a wait on this kernel fills.
pub type Events = crate::events::Events<Event>;

/// A system call for the caller to make.
#[derive(Clone, Copy, Debug, PartialEq, Eq, Structural)]
pub enum Syscall {
    /// `kqueue()`
    Kqueue,
    /// `kevent(kq, changelist, nchanges, eventlist, nevents, timeout)`. The
    /// change list holds `change`, if there is one. The event list has room
    /// for `nevents` events. Without a timeout the call waits without limit.
    Kevent { kq: Source, change: Option<Kevent>, nevents: i32, timeout: Option<Timespec> },
    /// `close(fd)`
    Close { fd: Source },
}

/// The call that makes a new kqueue.
pub fn kqueue() -> (call: Syscall)
    ensures
        call == Syscall::Kqueue,
{
    Syscall::Kqueue
}

/// The timeout the kernel is given for a wait of `timeout_ms` milliseconds.
pub open spec fn kernel_timeout(timeout_ms: Option<i32>) -> Option<Timespec> {
    match timeout_ms {
        Some(ms) => Some(Timespec::from_millis(ms)),
        None => None,
    }
}

/// The call on the queue `kq` that submits `change`, if there is one, and
/// collects up to `n_events` events, waiting `timeout_ms` milliseconds for
/// them at most.
pub open spec fn spec_kevent(
    kq: Source,
    change: Option<Kevent>,
    n_events: i32,
    timeout_ms: Option<i32>,
) -> Syscall {
    Syscall::Kevent { kq, change, nevents: n_events, timeout: kernel_timeout(timeout_ms) }
}

/// The call on the queue `kq` that submits `change`, if there is one, and
/// collects up to `n_events` events, waiting `timeout_ms` milliseconds for
/// them at most.
#[verifier::when_used_as_spec(spec_kevent)]
pub fn kevent(kq: Source, change: Option<Kevent>, n_events: i32, timeout_ms: Option<i32>) -> (call:
    Syscall)
    ensures
        call == spec_kevent(kq, change, n_events, timeout_ms),
{
    let timeout = match timeout_ms {
        Some(ms) => Some(Timespec::from_millis(ms)),
        None => None,
    };
    Syscall::Kevent { kq, change, nevents: n_events, timeout }
}

/// The call that closes `fd`.
pub fn close(fd: Source) -> (call: Syscall)
    ensures
        call == (Syscall::Close { fd }),
{
    Syscall::Close { fd }
}

/// The wait a selector on `kq` makes for a buffer with room for `capacity`
/// events: nothing is submitted.
pub open spec fn wait_call(kq: Source, capacity: usize, timeout_ms: Option<i32>) -> Syscall {
    kevent(kq, None, max_events(capacity), timeout_ms)
}

/// What a finished wait leaves in a buffer with room for `capacity` events,
/// when the kernel answered `reply` and wrote `ready`: the events the
/// kernel reported, or the error that made the wait fail.
pub open spec fn waited(reply: Reply, ready: Seq<Event>, capacity: usize) -> Result<
    Seq<Event>,
    Error,
> {
    match reply.outcome() {
        Err(error) => Err(error),
        Ok(n) => Ok(ready.take(admitted(n as int, ready.len() as int, capacity as int))),
    }
}

/// The registration request: one change, which asks to be told once when
/// `fd` becomes readable and carries `token`; no events are collected.
pub open spec fn arm_call(kq: Source, fd: Source, token: usize) -> Syscall {
    kevent(kq, Some(Kevent::new_read_event(fd, token as u64)), 0, None)
}

/// What a registration comes to when the instance was found `dead`. A
/// closed instance refuses with "interrupted"; interest in writability is
/// refused as unimplemented; anything else is armed for reading.
pub open spec fn spec_register_when(
    kq: Source,
    dead: bool,
    fd: Source,
    token: usize,
    interests: Interests,
) -> Result<Syscall, Error> {
    if dead {
        Err(Error::InstanceClosed)
    } else if interests.is_writable() {
        Err(Error::Unimplemented)
    } else {
        Ok(arm_call(kq, fd, token))
    }
}

/// What closing comes to for the caller that found the instance `dead` or
/// not: whoever finds it closed already is refused with "interrupted", and
/// the one who closes it submits the timer that wakes the waiter.
pub open spec fn spec_close_when(kq: Source, dead: bool) -> Result<Syscall, Error> {
    if dead {
        Err(Error::InstanceClosed)
    } else {
        Ok(kevent(kq, Some(Kevent::new_wakeup_event()), 0, None))
    }
}

/// A capability to add sources to a selector and to wake it, which can be
/// handed to other threads.
#[derive(Debug)]
pub struct Registrator {
    kq: Source,
    is_poll_dead: Arc<AtomicBool>,
}

impl Registrator {
    /// The queue this registrator adds to.
    pub closed spec fn handle(&self) -> Source {
        self.kq
    }

    /// The flag this registrator shares with its poll instance.
    pub closed spec fn flag(&self) -> Arc<AtomicBool> {
        self.is_poll_dead
    }

    /// What a registration comes to when the instance was found `dead`.
    pub fn register_when(
        kq: Source,
        dead: bool,
        fd: Source,
        token: usize,
        interests: Interests,
    ) -> (call: Result<Syscall, Error>)
        ensures
            call == spec_register_when(kq, dead, fd, token, interests),
    {
        if dead {
            Err(Error::InstanceClosed)
        } else if interests.is_writable() {
            Err(Error::Unimplemented)
        } else {
            Ok(kevent(kq, Some(Kevent::new_read_event(fd, token as u64)), 0, None))
        }
    }

    /// Registers interest in the socket `fd` under `token`. Yields the call
    /// to make; the registration stands once that call has succeeded.
    /// Whether the instance is closed is read from the shared flag at the
    /// moment of the call.
    pub fn register(&self, fd: Source, token: usize, interests: Interests) -> (call: Result<
        Syscall,
        Error,
    >)
        ensures
            call == spec_register_when(self.handle(), true, fd, token, interests) || call
                == spec_register_when(self.handle(), false, fd, token, interests),
    {
        let dead = flag::is_raised(&self.is_poll_dead);
        Registrator::register_when(self.kq, dead, fd, token, interests)
    }

    /// What closing comes to for the caller that found the instance `dead`
    /// or not.
    pub fn close_when(kq: Source, dead: bool) -> (call: Result<Syscall, Error>)
        ensures
            call == spec_close_when(kq, dead),
    {
        if dead {
            Err(Error::InstanceClosed)
        } else {
            Ok(kevent(kq, Some(Kevent::new_wakeup_event()), 0, None))
        }
    }

    /// Closes the poll instance: raises the shared flag and, if it was not
    /// raised before, yields the call that wakes the waiter.
    pub fn close_loop(&self) -> (call: Result<Syscall, Error>)
        ensures
            call == spec_close_when(self.handle(), true) || call == spec_close_when(
                self.handle(),
                false,
            ),
    {
        let dead = flag::raise(&self.is_poll_dead);
        Registrator::close_when(self.kq, dead)
    }
}

/// Owns the kqueue.
#[derive(Debug)]
pub struct Selector {
    kq: Source,
}

impl Selector {
    /// The queue this selector owns.
    pub closed spec fn handle(&self) -> Source {
        self.kq
    }

    /// The selector for the queue that `created`, the reply to [`kqueue`],
    /// brought; or the error that call failed with.
    pub fn new(created: Reply) -> (selector: Result<Selector, Error>)
        ensures
            match created.outcome() {
                Ok(kq) => selector matches Ok(s) && s.handle() == kq,
                Err(error) => selector matches Err(e) && e == error,
            },
    {
        match created.result() {
            Ok(kq) => Ok(Selector { kq }),
            Err(error) => Err(error),
        }
    }

    /// Starts a wait: empties `events` and yields the call that blocks
    /// until an event is there or the timeout, in milliseconds, has passed.
    /// Without a timeout the call waits without limit. It asks for no more
    /// events than `events` has room for.
    pub fn select(&self, events: &mut Events, timeout_ms: Option<i32>) -> (call: Syscall)
        ensures
            call == wait_call(self.handle(), old(events).capacity(), timeout_ms),
            final(events)@ == Seq::<Event>::empty(),
            final(events).capacity() == old(events).capacity(),
    {
        let n_events: i32 = max_events(events.capacity());
        events.clear();
        kevent(self.kq, None, n_events, timeout_ms)
    }

    /// Finishes a wait: given the kernel's reply and the events it wrote,
    /// puts the reported events into `events`. When the wait failed,
    /// `events` is left empty and the error is returned. The capacity of
    /// `events` is never exceeded and never changed.
    pub fn selected(&self, events: &mut Events, reply: Reply, ready: Vec<Event>) -> (result: Result<
        (),
        Error,
    >)
        ensures
            match waited(reply, ready@, old(events).capacity()) {
                Ok(reported) => result is Ok && final(events)@ == reported,
                Err(error) => result == Err::<(), Error>(error) && final(events)@ == Seq::<
                    Event,
                >::empty(),
            },
            final(events)@.len() <= final(events).capacity(),
            final(events).capacity() == old(events).capacity(),
    {
        match reply.result() {
            Err(error) => {
                events.clear();
                Err(error)
            },
            Ok(n) => {
                events.fill(ready, n as usize);
                Ok(())
            },
        }
    }

    /// A registrator for this selector that shares `is_poll_dead`.
    pub fn registrator(&self, is_poll_dead: Arc<AtomicBool>) -> (registrator: Registrator)
        ensures
            registrator.handle() == self.handle(),
            registrator.flag() == is_poll_dead,
    {
        Registrator { kq: self.kq, is_poll_dead }
    }

    /// The call that gives the queue back to the kernel. It is due when the
    /// selector is dropped.
    pub fn close(&self) -> (call: Syscall)
        ensures
            call == (Syscall::Close { fd: self.handle() }),
    {
        close(self.kq)
    }

    /// What dropping the selector comes to, given the reply to
    /// [`Selector::close`]: a failure to close is raised as a panic, so
    /// that a leaked descriptor is noticed, unless the thread is panicking
    /// already. Yields the error to panic with, if any.
    pub fn dropped(&self, closed: Reply, panicking: bool) -> (raise: Option<Error>)
        ensures
            raise == match closed.outcome() {
                Err(error) if !panicking => Some(error),
                _ => None::<Error>,
            },
    {
        match closed.result() {
            Err(error) => if panicking {
                None
            } else {
                Some(error)
            },
            Ok(_) => None,
        }
    }
}

/// The event queue on kqueue.
pub type Poll = crate::Poll<Selector>;

impl crate::Poll<Selector> {
    /// A poll instance on the queue that `created`, the reply to
    /// [`kqueue`], brought; or the error that call failed with.
    pub fn new(created: Reply) -> (poll: Result<Poll, Error>)
        ensures
            match created.outcome() {
                Ok(kq) => poll matches Ok(p) && p.selector().handle() == kq,
                Err(error) => poll matches Err(e) && e == error,
            },
    {
        match Selector::new(created) {
            Ok(selector) => Ok(
                crate::Poll { registry: Registry { selector }, is_poll_dead: flag::lowered() },
            ),
            Err(error) => Err(error),
        }
    }

    /// A registrator tied to this event queue, which can be sent to another
    /// thread.
    pub fn registrator(&self) -> (registrator: Registrator)
        ensures
            registrator.handle() == self.selector().handle(),
            registrator.flag() == self.flag(),
    {
        self.registry.selector.registrator(flag::share(&self.is_poll_dead))
    }

    /// Registers interest in the socket `fd` under a token of the caller's
    /// choosing. Yields the token and the call to make.
    pub fn register_with_id(&self, fd: Source, interests: Interests, token: Token) -> (call:
        Result<(Token, Syscall), Error>)
        ensures
            ({
                let kq = self.selector().handle();
                let dead = spec_register_when(kq, true, fd, token, interests);
                let alive = spec_register_when(kq, false, fd, token, interests);
                call == tagged(token, dead) || call == tagged(token, alive)
            }),
    {
        let dead = flag::is_raised(&self.is_poll_dead);
        match Registrator::register_when(self.registry.selector.kq, dead, fd, token, interests) {
            Ok(call) => Ok((token, call)),
            Err(error) => Err(error),
        }
    }

    /// Registers interest in the socket `fd` under the next token of
    /// `tokens`, which is used up whether or not the registration is
    /// accepted. Yields the token and the call to make.
    pub fn register(&self, tokens: &mut TokenAllocator, fd: Source, interests: Interests) -> (call:
        Result<(Token, Syscall), Error>)
        ensures
            final(tokens).upcoming() == crate::token::successor(old(tokens).upcoming()),
            ({
                let kq = self.selector().handle();
                let token = old(tokens).upcoming();
                let dead = spec_register_when(kq, true, fd, token, interests);
                let alive = spec_register_when(kq, false, fd, token, interests);
                call == tagged(token, dead) || call == tagged(token, alive)
            }),
    {
        let token = tokens.allocate();
        self.register_with_id(fd, interests, token)
    }

    /// Starts a poll: empties `events` and yields the call that blocks
    /// until an event is there or the timeout has passed. A negative
    /// timeout counts as zero. Hand the reply to [`Poll::resume`].
    pub fn poll(&mut self, events: &mut Events, timeout_ms: Option<i32>) -> (call: Syscall)
        ensures
            call == wait_call(
                old(self).selector().handle(),
                old(events).capacity(),
                clamp_timeout(timeout_ms),
            ),
            final(events)@ == Seq::<Event>::empty(),
            final(events).capacity() == old(events).capacity(),
            *final(self) == *old(self),
    {
        let timeout = clamp_timeout(timeout_ms);
        self.registry.selector.select(events, timeout)
    }

    /// Goes on with a poll once the wait has come back: puts the reported
    /// events into `events` and says whether to wait again or what the poll
    /// returns. Whether the instance is closed is read from the shared flag
    /// after a wait that succeeded.
    pub fn resume(&mut self, events: &mut Events, reply: Reply, ready: Vec<Event>) -> (step:
        PollStep)
        ensures
            ({
                let selected = unit(waited(reply, ready@, old(events).capacity()));
                let n = final(events)@.len() as usize;
                step == poll_outcome(selected, true, n) || step == poll_outcome(selected, false, n)
            }),
            match waited(reply, ready@, old(events).capacity()) {
                Ok(reported) => final(events)@ == reported,
                Err(_) => final(events)@ == Seq::<Event>::empty(),
            },
            final(events)@.len() <= final(events).capacity(),
            final(events).capacity() == old(events).capacity(),
            *final(self) == *old(self),
    {
        let selected = self.registry.selector.selected(events, reply, ready);
        let dead = match selected {
            Ok(_) => flag::is_raised(&self.is_poll_dead),
            Err(_) => false,
        };
        poll_outcome(selected, dead, events.len())
    }
}

/// Closing is final. Whoever closes an instance that is still open is given
/// the call that wakes the waiter. From then on the instance is found
/// closed, and whoever finds it closed is refused as interrupted, to
/// register as well as to close once more, and is given no call to make. A
/// poll whose wait went well and that finds the instance closed ends as
/// interrupted, with the text "Poll closed.".
pub proof fn closed_is_final(kq: Source, fd: Source, token: usize, interests: Interests, n: usize)
    ensures
        spec_close_when(kq, false) is Ok,
        spec_close_when(kq, true) matches Err(error) && error.is_interrupted(),
        spec_register_when(kq, true, fd, token, interests) matches Err(error)
            && error.is_interrupted(),
        poll_outcome(Ok(()), true, n) matches PollStep::Done(Err(error)) && error.is_interrupted()
            && error.spec_message() == "Poll closed."@,
{
}

/// The token given at registration is the one the event brings back: the
/// call that registers hands the token to the kernel as the data to keep,
/// and an event that carries that data has the token as its `id`.
pub proof fn token_round_trips(kq: Source, fd: Source, token: usize, reported: Kevent)
    requires
        arm_call(kq, fd, token) matches Syscall::Kevent { change: Some(change), .. }
            && reported.udata == change.udata,
    ensures
        reported.id() == token,
{
}

/// Every registration is for one notification: the call that registers
/// submits one change, which adds a read filter for the descriptor and sets
/// the one-shot flag, and collects no events.
pub proof fn registration_is_oneshot(kq: Source, fd: Source, token: usize)
    ensures
        arm_call(kq, fd, token) matches Syscall::Kevent { change: Some(change), nevents, timeout, .. }
            && change.filter == EVFILT_READ && change.flags == 0x15u16 && change.flags & EV_ONESHOT
            != 0 && change.flags & EV_ADD != 0 && nevents == 0 && timeout is None,
{
    assert((0x1u16 | 0x4u16 | 0x10u16) == 0x15u16) by (bit_vector);
    assert(0x15u16 & 0x10u16 != 0 && 0x15u16 & 0x1u16 != 0) by (bit_vector);
}

} // verus!
