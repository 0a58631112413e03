//! The selector for epoll.

use crate::error::Error;
use crate::events::admitted;
use crate::flag;
use crate::interests::Interests;
use crate::poll_outcome;
use crate::tagged;
use crate::unit;
use crate::unix::max_events;
use crate::clamp_timeout;
use crate::token::TokenAllocator;
use crate::unix::Reply;
use crate::PollStep;
use crate::Registry;
use crate::Token;
use std::sync::atomic::AtomicBool;
use std::sync::Arc;
use vstd::prelude::*;

verus! {

pub const EPOLL_CTL_ADD: i32 = 1;

pub const EPOLL_CTL_DEL: i32 = 2;

pub const EPOLLIN: i32 = 0x1;

pub const EPOLLONESHOT: i32 = 0x40000000;

/// Ties a file descriptor's readiness to the data registered with it. When
/// handed to the kernel, `events` says which conditions to watch; when the
/// kernel hands it back, which of them hold.
#[derive(Clone, Copy, Debug, PartialEq, Eq, Structural)]
pub struct Event {
    pub events: u32,
    pub epoll_data: usize,
}

impl Event {
    /// The record for the conditions `events` and the data `id`.
    pub open spec fn spec_new(events: i32, id: usize) -> Event {
        Event { events: events as u32, epoll_data: id }
    }

    /// The record for the conditions `events` and the data `id`.
    #[verifier::when_used_as_spec(spec_new)]
    pub fn new(events: i32, id: usize) -> (event: Event)
        ensures
            event == Event::spec_new(events, id),
    {
        Event { events: #[verifier::truncate] (events as u32), epoll_data: id }
    }

    /// The data registered with the descriptor.
    pub open spec fn spec_data(&self) -> usize {
        self.epoll_data
    }

    /// The data registered with the descriptor.
    #[verifier::when_used_as_spec(spec_data)]
    pub fn data(&self) -> (data: usize)
        ensures
            data == self.spec_data(),
    {
        self.epoll_data
    }

    /// The token of the registration this event belongs to.
    pub open spec fn spec_id(&self) -> Token {
        self.epoll_data
    }

    /// The token of the registration this event belongs to.
    #[verifier::when_used_as_spec(spec_id)]
    pub fn id(&self) -> (token: Token)
        ensures
            token == self.spec_id(),
    {
        self.data()
    }
}

/// The buffer a wait on this kernel fills.
pub type Events = crate::events::Events<Event>;

/// A system call for the caller to make.
#[derive(Clone, Copy, Debug, PartialEq, Eq, Structural)]
pub enum Syscall {
    /// `epoll_create(size)`
    EpollCreate { size: i32 },
    /// `close(fd)`
    Close { fd: i32 },
    /// `epoll_ctl(epfd, op, fd, &event)`
    EpollCtl { epfd: i32, op: i32, fd: i32, event: Event },
    /// `epoll_wait(epfd, buffer, maxevents, timeout)`, where the buffer has
    /// room for `maxevents` events
    EpollWait { epfd: i32, maxevents: i32, timeout: i32 },
    /// `eventfd(initval, flags)`
    Eventfd { initval: u32, flags: i32 },
}

/// The call that makes a new epoll instance. The kernel ignores the size but
/// wants it positive.
pub fn epoll_create() -> (call: Syscall)
    ensures
        call == (Syscall::EpollCreate { size: 1 }),
{
    Syscall::EpollCreate { size: 1 }
}

/// The call that closes `fd`.
pub fn close_fd(fd: i32) -> (call: Syscall)
    ensures
        call == (Syscall::Close { fd }),
{
    Syscall::Close { fd }
}

/// The call that applies `op` to `fd` on the epoll instance `epfd`.
pub fn epoll_ctl(epfd: i32, op: i32, fd: i32, event: Event) -> (call: Syscall)
    ensures
        call == (Syscall::EpollCtl { epfd, op, fd, event }),
{
    Syscall::EpollCtl { epfd, op, fd, event }
}

/// The call that waits on `epfd` for at most `maxevents` events; a timeout
/// of -1 waits without limit.
pub fn epoll_wait(epfd: i32, maxevents: i32, timeout: i32) -> (call: Syscall)
    ensures
        call == (Syscall::EpollWait { epfd, maxevents, timeout }),
{
    Syscall::EpollWait { epfd, maxevents, timeout }
}

/// The call that makes an event descriptor with the counter at `initva`.
pub fn eventfd(initva: u32, flags: i32) -> (call: Syscall)
    ensures
        call == (Syscall::Eventfd { initval: initva, flags }),
{
    Syscall::Eventfd { initval: initva, flags }
}

/// The wait a selector on `epfd` makes for a buffer with room for
/// `capacity` events.
pub open spec fn wait_call(epfd: i32, capacity: usize, timeout_ms: Option<i32>) -> Syscall {
    Syscall::EpollWait {
        epfd,
        maxevents: max_events(capacity),
        timeout: match timeout_ms {
            Some(ms) => ms,
            None => -1i32,
        },
    }
}

/// What a finished wait leaves in a buffer with room for `capacity` events,
/// when the kernel answered `reply` and wrote `ready`: the events the
/// kernel reported, or the error that made the wait fail.
pub open spec fn waited(reply: Reply, ready: Seq<Event>, capacity: usize) -> Result<
    Seq<Event>,
    Error,
> {
    match reply.outcome() {
        Err(error) => Err(error),
        Ok(n) => Ok(ready.take(admitted(n as int, ready.len() as int, capacity as int))),
    }
}

/// The registration request: `fd` is added to `epfd`, to be reported once,
/// when it becomes readable, with `token` as its data.
pub open spec fn arm_call(epfd: i32, fd: i32, token: usize) -> Syscall {
    Syscall::EpollCtl {
        epfd,
        op: EPOLL_CTL_ADD,
        fd,
        event: Event::new(EPOLLIN | EPOLLONESHOT, token),
    }
}

/// What a registration comes to when the instance was found `dead`. A
/// closed instance refuses with "interrupted"; interest in writability is
/// refused as unimplemented; anything else is armed for reading.
pub open spec fn spec_register_when(
    epfd: i32,
    dead: bool,
    fd: i32,
    token: usize,
    interests: Interests,
) -> Result<Syscall, Error> {
    if dead {
        Err(Error::InstanceClosed)
    } else if interests.is_writable() {
        Err(Error::Unimplemented)
    } else {
        Ok(arm_call(epfd, fd, token))
    }
}

/// What closing comes to for the caller that found the instance `dead` or
/// not: whoever finds it closed already is refused with "interrupted", and
/// the one who closes it goes on to make the descriptor that will wake the
/// waiter.
pub open spec fn spec_close_when(dead: bool) -> Result<Syscall, Error> {
    if dead {
        Err(Error::InstanceClosed)
    } else {
        Ok(Syscall::Eventfd { initval: 1, flags: 0 })
    }
}

/// The second step of closing: when the wake descriptor was made, it is
/// added to `epfd`, readable from the start, with zero as its data.
pub open spec fn spec_wake(epfd: i32, made: Reply) -> Result<Syscall, Error> {
    match made.outcome() {
        Err(error) => Err(error),
        Ok(wake_fd) => Ok(
            Syscall::EpollCtl {
                epfd,
                op: EPOLL_CTL_ADD,
                fd: wake_fd,
                event: Event::new(EPOLLIN, 0),
            },
        ),
    }
}

/// A capability to add sources to a selector and to wake it, which can be
/// handed to other threads.
#[derive(Debug)]
pub struct Registrator {
    fd: i32,
    is_poll_dead: Arc<AtomicBool>,
}

impl Registrator {
    /// The epoll instance this registrator adds to.
    pub closed spec fn handle(&self) -> i32 {
        self.fd
    }

    /// The flag this registrator shares with its poll instance.
    pub closed spec fn flag(&self) -> Arc<AtomicBool> {
        self.is_poll_dead
    }

    /// What a registration comes to when the instance was found `dead`.
    pub fn register_when(
        epfd: i32,
        dead: bool,
        fd: i32,
        token: usize,
        interests: Interests,
    ) -> (call: Result<Syscall, Error>)
        ensures
            call == spec_register_when(epfd, dead, fd, token, interests),
    {
        if dead {
            Err(Error::InstanceClosed)
        } else if interests.is_writable() {
            Err(Error::Unimplemented)
        } else {
            Ok(epoll_ctl(epfd, EPOLL_CTL_ADD, fd, Event::new(EPOLLIN | EPOLLONESHOT, token)))
        }
    }

    /// Registers interest in the socket `fd` under `token`. Yields the call
    /// to make; the registration stands once that call has succeeded.
    /// Whether the instance is closed is read from the shared flag at the
    /// moment of the call.
    pub fn register(&self, fd: i32, token: usize, interests: Interests) -> (call: Result<
        Syscall,
        Error,
    >)
        ensures
            call == spec_register_when(self.handle(), true, fd, token, interests) || call
                == spec_register_when(self.handle(), false, fd, token, interests),
    {
        let dead = flag::is_raised(&self.is_poll_dead);
        Registrator::register_when(self.fd, dead, fd, token, interests)
    }

    /// What closing comes to for the caller that found the instance `dead`
    /// or not.
    pub fn close_when(dead: bool) -> (call: Result<Syscall, Error>)
        ensures
            call == spec_close_when(dead),
    {
        if dead {
            Err(Error::InstanceClosed)
        } else {
            Ok(eventfd(1, 0))
        }
    }

    /// Closes the poll instance: raises the shared flag and, if it was not
    /// raised before, yields the first of the two calls that wake the
    /// waiter. Hand the reply to [`Registrator::wake`].
    pub fn close_loop(&self) -> (call: Result<Syscall, Error>)
        ensures
            call == spec_close_when(true) || call == spec_close_when(false),
    {
        let dead = flag::raise(&self.is_poll_dead);
        Registrator::close_when(dead)
    }

    /// The second step of closing: given the reply to the call that makes
    /// the wake descriptor, yields the call that adds it to the instance.
    pub fn wake(&self, made: Reply) -> (call: Result<Syscall, Error>)
        ensures
            call == spec_wake(self.handle(), made),
    {
        match made.result() {
            Err(error) => Err(error),
            Ok(wake_fd) => Ok(epoll_ctl(self.fd, EPOLL_CTL_ADD, wake_fd, Event::new(EPOLLIN, 0))),
        }
    }
}

/// Owns the epoll instance.
#[derive(Debug)]
pub struct Selector {
    fd: i32,
}

impl Selector {
    /// The epoll instance this selector owns.
    pub closed spec fn handle(&self) -> i32 {
        self.fd
    }

    /// The selector for the instance that `created`, the reply to
    /// [`epoll_create`], brought; or the error that call failed with.
    pub fn new(created: Reply) -> (selector: Result<Selector, Error>)
        ensures
            match created.outcome() {
                Ok(fd) => selector matches Ok(s) && s.handle() == fd,
                Err(error) => selector matches Err(e) && e == error,
            },
    {
        match created.result() {
            Ok(fd) => Ok(Selector { fd }),
            Err(error) => Err(error),
        }
    }

    /// Starts a wait: empties `events` and yields the call that blocks
    /// until an event is there or the timeout, in milliseconds, has passed.
    /// Without a timeout the call waits without limit. It asks for no more
    /// events than `events` has room for.
    pub fn select(&self, events: &mut Events, timeout_ms: Option<i32>) -> (call: Syscall)
        ensures
            call == wait_call(self.handle(), old(events).capacity(), timeout_ms),
            final(events)@ == Seq::<Event>::empty(),
            final(events).capacity() == old(events).capacity(),
    {
        events.clear();
        let maxevents: i32 = max_events(events.capacity());
        let timeout: i32 = timeout_ms.unwrap_or(-1);
        epoll_wait(self.fd, maxevents, timeout)
    }

    /// Finishes a wait: given the kernel's reply and the events it wrote,
    /// puts the reported events into `events`. When the wait failed,
    /// `events` is left empty and the error is returned. The capacity of
    /// `events` is never exceeded and never changed.
    pub fn selected(&self, events: &mut Events, reply: Reply, ready: Vec<Event>) -> (result: Result<
        (),
        Error,
    >)
        ensures
            match waited(reply, ready@, old(events).capacity()) {
                Ok(reported) => result is Ok && final(events)@ == reported,
                Err(error) => result == Err::<(), Error>(error) && final(events)@ == Seq::<
                    Event,
                >::empty(),
            },
            final(events)@.len() <= final(events).capacity(),
            final(events).capacity() == old(events).capacity(),
    {
        match reply.result() {
            Err(error) => {
                events.clear();
                Err(error)
            },
            Ok(n) => {
                events.fill(ready, n as usize);
                Ok(())
            },
        }
    }

    /// A registrator for this selector that shares `is_poll_dead`.
    pub fn registrator(&self, is_poll_dead: Arc<AtomicBool>) -> (registrator: Registrator)
        ensures
            registrator.handle() == self.handle(),
            registrator.flag() == is_poll_dead,
    {
        Registrator { fd: self.fd, is_poll_dead }
    }

    /// The call that gives the instance back to the kernel. It is due when
    /// the selector is dropped.
    pub fn close(&self) -> (call: Syscall)
        ensures
            call == (Syscall::Close { fd: self.handle() }),
    {
        close_fd(self.fd)
    }

    /// What dropping the selector comes to, given the reply to
    /// [`Selector::close`]: a failure to close is raised as a panic, so
    /// that a leaked descriptor is noticed, unless the thread is panicking
    /// already. Yields the error to panic with, if any.
    pub fn dropped(&self, closed: Reply, panicking: bool) -> (raise: Option<Error>)
        ensures
            raise == match closed.outcome() {
                Err(error) if !panicking => Some(error),
                _ => None::<Error>,
            },
    {
        match closed.result() {
            Err(error) => if panicking {
                None
            } else {
                Some(error)
            },
            Ok(_) => None,
        }
    }
}

/// The event queue on epoll.
pub type Poll = crate::Poll<Selector>;

impl crate::Poll<Selector> {
    /// A poll instance on the epoll instance that `created`, the reply to
    /// [`epoll_create`], brought; or the error that call failed with.
    pub fn new(created: Reply) -> (poll: Result<Poll, Error>)
        ensures
            match created.outcome() {
                Ok(fd) => poll matches Ok(p) && p.selector().handle() == fd,
                Err(error) => poll matches Err(e) && e == error,
            },
    {
        match Selector::new(created) {
            Ok(selector) => Ok(
                crate::Poll { registry: Registry { selector }, is_poll_dead: flag::lowered() },
            ),
            Err(error) => Err(error),
        }
    }

    /// A registrator tied to this event queue, which can be sent to another
    /// thread.
    pub fn registrator(&self) -> (registrator: Registrator)
        ensures
            registrator.handle() == self.selector().handle(),
            registrator.flag() == self.flag(),
    {
        self.registry.selector.registrator(flag::share(&self.is_poll_dead))
    }

    /// Registers interest in the socket `fd` under a token of the caller's
    /// choosing. Yields the token and the call to make.
    pub fn register_with_id(&self, fd: i32, interests: Interests, token: Token) -> (call: Result<
        (Token, Syscall),
        Error,
    >)
        ensures
            ({
                let epfd = self.selector().handle();
                let dead = spec_register_when(epfd, true, fd, token, interests);
                let alive = spec_register_when(epfd, false, fd, token, interests);
                call == tagged(token, dead) || call == tagged(token, alive)
            }),
    {
        let dead = flag::is_raised(&self.is_poll_dead);
        match Registrator::register_when(self.registry.selector.fd, dead, fd, token, interests) {
            Ok(call) => Ok((token, call)),
            Err(error) => Err(error),
        }
    }

    /// Registers interest in the socket `fd` under the next token of
    /// `tokens`, which is used up whether or not the registration is
    /// accepted. Yields the token and the call to make.
    pub fn register(&self, tokens: &mut TokenAllocator, fd: i32, interests: Interests) -> (call:
        Result<(Token, Syscall), Error>)
        ensures
            final(tokens).upcoming() == crate::token::successor(old(tokens).upcoming()),
            ({
                let epfd = self.selector().handle();
                let token = old(tokens).upcoming();
                let dead = spec_register_when(epfd, true, fd, token, interests);
                let alive = spec_register_when(epfd, false, fd, token, interests);
                call == tagged(token, dead) || call == tagged(token, alive)
            }),
    {
        let token = tokens.allocate();
        self.register_with_id(fd, interests, token)
    }

    /// Starts a poll: empties `events` and yields the call that blocks
    /// until an event is there or the timeout has passed. A negative
    /// timeout counts as zero. Hand the reply to [`Poll::resume`].
    pub fn poll(&mut self, events: &mut Events, timeout_ms: Option<i32>) -> (call: Syscall)
        ensures
            call == wait_call(
                old(self).selector().handle(),
                old(events).capacity(),
                clamp_timeout(timeout_ms),
            ),
            final(events)@ == Seq::<Event>::empty(),
            final(events).capacity() == old(events).capacity(),
            *final(self) == *old(self),
    {
        let timeout = clamp_timeout(timeout_ms);
        self.registry.selector.select(events, timeout)
    }

    /// Goes on with a poll once the wait has come back: puts the reported
    /// events into `events` and says whether to wait again or what the poll
    /// returns. Whether the instance is closed is read from the shared flag
    /// after a wait that succeeded.
    pub fn resume(&mut self, events: &mut Events, reply: Reply, ready: Vec<Event>) -> (step:
        PollStep)
        ensures
            ({
                let selected = unit(waited(reply, ready@, old(events).capacity()));
                let n = final(events)@.len() as usize;
                step == poll_outcome(selected, true, n) || step == poll_outcome(selected, false, n)
            }),
            match waited(reply, ready@, old(events).capacity()) {
                Ok(reported) => final(events)@ == reported,
                Err(_) => final(events)@ == Seq::<Event>::empty(),
            },
            final(events)@.len() <= final(events).capacity(),
            final(events).capacity() == old(events).capacity(),
            *final(self) == *old(self),
    {
        let selected = self.registry.selector.selected(events, reply, ready);
        let dead = match selected {
            Ok(_) => flag::is_raised(&self.is_poll_dead),
            Err(_) => false,
        };
        poll_outcome(selected, dead, events.len())
    }
}

/// Closing is final. Whoever closes an instance that is still open is given
/// the call that starts waking the waiter. From then on the instance is
/// found closed, and whoever finds it closed is refused as interrupted, to
/// register as well as to close once more, and is given no call to make. A
/// poll whose wait went well and that finds the instance closed ends as
/// interrupted, with the text "Poll closed.".
pub proof fn closed_is_final(epfd: i32, fd: i32, token: usize, interests: Interests, n: usize)
    ensures
        spec_close_when(false) is Ok,
        spec_close_when(true) matches Err(error) && error.is_interrupted(),
        spec_register_when(epfd, true, fd, token, interests) matches Err(error)
            && error.is_interrupted(),
        poll_outcome(Ok(()), true, n) matches PollStep::Done(Err(error)) && error.is_interrupted()
            && error.spec_message() == "Poll closed."@,
{
}

/// The token given at registration is the one the event brings back: the
/// call that registers hands the token to the kernel as the data to keep,
/// and whatever conditions the kernel reports with that data, the event's
/// `id` is the token.
pub proof fn token_round_trips(epfd: i32, fd: i32, token: usize, conditions: u32)
    ensures
        arm_call(epfd, fd, token) matches Syscall::EpollCtl { event, .. } && event.data() == token
            && (Event { events: conditions, epoll_data: event.data() }).id() == token,
{
}

/// Every registration is for one notification: the call that registers
/// asks for readability and sets the one-shot bit.
pub proof fn registration_is_oneshot(epfd: i32, fd: i32, token: usize)
    ensures
        arm_call(epfd, fd, token) matches Syscall::EpollCtl { op, event, .. } && op == EPOLL_CTL_ADD
            && event.events == 0x4000_0001u32 && event.events & 0x4000_0000u32 != 0 && event.events
            & 0x1u32 != 0,
{
    assert(((0x1i32 | 0x4000_0000i32) as u32) == 0x4000_0001u32) by (bit_vector);
    assert(0x4000_0001u32 & 0x4000_0000u32 != 0 && 0x4000_0001u32 & 0x1u32 != 0) by (bit_vector);
}

} // verus!
