//! The selector for I/O completion ports.

use crate::clamp_timeout;
use crate::error::Error;
use crate::events::admitted;
use crate::events::least;
use crate::flag;
use crate::interests::Interests;
use crate::poll_outcome;
use crate::tagged;
use crate::token::TokenAllocator;
use crate::unit;
use crate::PollStep;
use crate::Registry;
use crate::Token;
use std::sync::atomic::AtomicBool;
use std::sync::Arc;
use vstd::prelude::*;

verus! {

/// A handle of the kernel.
pub type HANDLE = isize;

/// A socket of the kernel.
pub type RawSocket = u64;

/// The handle that stands for no file: it asks for a port of its own.
pub const INVALID_HANDLE_VALUE: HANDLE = -1;

/// The error code of a receive that has been started and will complete
/// later.
pub const WSA_IO_PENDING: i32 = 997;

/// The error code of a wait that ran out of time.
pub const WAIT_TIMEOUT: i32 = 258;

/// The timeout that never runs out.
pub const INFINITE: u32 = 0xFFFFFFFF;

/// The size of a stream's receive buffer, in bytes.
pub const BUFFER_SIZE: usize = 1024;

/// Describes the part of a stream's receive buffer that is lent to the
/// kernel: `len` bytes, starting `buf` bytes into the buffer.
#[allow(non_camel_case_types)]
#[derive(Clone, Copy, Debug, PartialEq, Eq, Structural)]
pub struct WSABUF {
    pub len: u32,
    pub buf: usize,
}

impl WSABUF {
    /// The description of `len` bytes that start `buf` bytes into the
    /// buffer.
    pub fn new(len: u32, buf: usize) -> (wsabuf: WSABUF)
        ensures
            wsabuf == (WSABUF { len, buf }),
    {
        WSABUF { len, buf }
    }
}

/// The header the kernel keeps its own notes in while an overlapped
/// operation is under way.
#[allow(non_camel_case_types)]
#[derive(Clone, Copy, Debug, PartialEq, Eq, Structural)]
pub struct WSAOVERLAPPED {
    /// Reserved for internal use
    pub internal: usize,
    /// Reserved
    pub internal_high: usize,
    /// Reserved for service providers
    pub offset: u32,
    /// Reserved for service providers
    pub offset_high: u32,
    /// An event to signal, or none
    pub h_event: HANDLE,
}

impl WSAOVERLAPPED {
    /// The header with every field zero.
    pub open spec fn spec_zeroed() -> WSAOVERLAPPED {
        WSAOVERLAPPED { internal: 0, internal_high: 0, offset: 0, offset_high: 0, h_event: 0 }
    }

    /// The header with every field zero.
    #[verifier::when_used_as_spec(spec_zeroed)]
    pub fn zeroed() -> (overlapped: WSAOVERLAPPED)
        ensures
            overlapped == WSAOVERLAPPED::spec_zeroed(),
    {
        WSAOVERLAPPED { internal: 0, internal_high: 0, offset: 0, offset_high: 0, h_event: 0 }
    }
}

/// The record of one receive under way: the kernel's header first, and
/// right after it the token of the registration.
#[derive(Clone, Copy, Debug, PartialEq, Eq, Structural)]
pub struct Operation {
    pub wsaoverlapped: WSAOVERLAPPED,
    pub token: usize,
}

impl Operation {
    /// The record of a receive for `token` that has not started yet.
    pub open spec fn spec_new(token: usize) -> Operation {
        Operation { wsaoverlapped: WSAOVERLAPPED::zeroed(), token }
    }

    /// The record of a receive for `token` that has not started yet.
    #[verifier::when_used_as_spec(spec_new)]
    pub fn new(token: usize) -> (operation: Operation)
        ensures
            operation == Operation::spec_new(token),
    {
        Operation { wsaoverlapped: WSAOVERLAPPED::zeroed(), token }
    }
}

/// One entry taken off a completion port. `lp_overlapped` is the record
/// of the operation that completed, if the entry belongs to one: a
/// completion that was posted only to wake the waiter has none.
#[allow(non_camel_case_types)]
#[derive(Clone, Copy, Debug, PartialEq, Eq)]
pub struct OVERLAPPED_ENTRY {
    pub lp_completion_key: usize,
    pub lp_overlapped: Option<Operation>,
    pub internal: usize,
    pub bytes_transferred: u32,
}

/// An event as a wait on this kernel reports it.
pub type Event = OVERLAPPED_ENTRY;

impl OVERLAPPED_ENTRY {
    /// The token of the registration this event belongs to: the one kept in
    /// the record of the operation that completed. An entry without such a
    /// record has the token zero.
    pub open spec fn spec_id(&self) -> Token {
        match self.lp_overlapped {
            Some(operation) => operation.token,
            None => 0,
        }
    }

    /// The token of the registration this event belongs to.
    #[verifier::when_used_as_spec(spec_id)]
    pub fn id(&self) -> (token: Token)
        ensures
            token == self.spec_id(),
    {
        match self.lp_overlapped {
            Some(operation) => operation.token,
            None => 0,
        }
    }

    /// The entry with every field zero and no operation.
    pub fn zeroed() -> (entry: OVERLAPPED_ENTRY)
        ensures
            entry == (OVERLAPPED_ENTRY {
                lp_completion_key: 0,
                lp_overlapped: None,
                internal: 0,
                bytes_transferred: 0,
            }),
    {
        OVERLAPPED_ENTRY {
            lp_completion_key: 0,
            lp_overlapped: None,
            internal: 0,
            bytes_transferred: 0,
        }
    }
}

/// The buffer a wait on this kernel fills.
pub type Events = crate::events::Events<Event>;

/// A system call for the caller to make.
#[derive(Clone, Copy, Debug, PartialEq, Eq, Structural)]
pub enum Syscall {
    /// `CreateIoCompletionPort(file_handle, existing_port, completion_key,
    /// threads)`
    CreateIoCompletionPort {
        file_handle: HANDLE,
        existing_port: HANDLE,
        completion_key: usize,
        threads: u32,
    },
    /// `WSARecv(socket, &buffer, buffer_count, null, &flags, &operation,
    /// null)`: `buffer` says where in the stream's receive buffer the bytes
    /// go, and `operation` is the record to keep in place, at a fixed
    /// address, until the completion has been taken off the port.
    WsaRecv { socket: RawSocket, buffer: WSABUF, buffer_count: u32, flags: u32, operation: Operation },
    /// `PostQueuedCompletionStatus(port, bytes, key, &overlapped)`
    PostQueuedCompletionStatus { port: HANDLE, bytes: u32, key: usize, overlapped: WSAOVERLAPPED },
    /// `GetQueuedCompletionStatusEx(port, entries, count, &removed,
    /// timeout, alertable)`, where there is room for `count` entries
    GetQueuedCompletionStatusEx { port: HANDLE, count: u32, timeout: u32, alertable: bool },
    /// `CloseHandle(handle)`
    CloseHandle { handle: HANDLE },
}

/// What came back from one system call: its return value, and the error
/// code the kernel left behind, which means something only when the return
/// value says that the call failed.
#[derive(Clone, Copy, Debug, PartialEq, Eq, Structural)]
pub struct Reply {
    pub ret: isize,
    pub error: i32,
}

impl Reply {
    /// How a call that returns a handle went: the null handle says that it
    /// failed.
    pub open spec fn spec_handle(self) -> Result<HANDLE, Error> {
        if self.ret == 0 {
            Err(Error::Os { code: self.error })
        } else {
            Ok(self.ret)
        }
    }

    /// How a call that returns a handle went.
    #[verifier::when_used_as_spec(spec_handle)]
    pub fn handle(self) -> (result: Result<HANDLE, Error>)
        ensures
            result == self.spec_handle(),
    {
        if self.ret == 0 {
            Err(Error::Os { code: self.error })
        } else {
            Ok(self.ret)
        }
    }

    /// How a call that returns a truth value went: zero says that it
    /// failed.
    pub open spec fn spec_done(self) -> Result<(), Error> {
        if self.ret == 0 {
            Err(Error::Os { code: self.error })
        } else {
            Ok(())
        }
    }

    /// How a call that returns a truth value went.
    #[verifier::when_used_as_spec(spec_done)]
    pub fn done(self) -> (result: Result<(), Error>)
        ensures
            result == self.spec_done(),
    {
        if self.ret == 0 {
            Err(Error::Os { code: self.error })
        } else {
            Ok(())
        }
    }

    /// How starting a receive went. Zero says that the receive completed at
    /// once; anything else is a failure, except with the code that says
    /// the receive is under way and will complete later.
    pub open spec fn spec_received(self) -> Result<(), Error> {
        if self.ret != 0 && self.error != WSA_IO_PENDING {
            Err(Error::Os { code: self.error })
        } else {
            Ok(())
        }
    }

    /// How starting a receive went.
    #[verifier::when_used_as_spec(spec_received)]
    pub fn received(self) -> (result: Result<(), Error>)
        ensures
            result == self.spec_received(),
    {
        if self.ret != 0 {
            if self.error == WSA_IO_PENDING {
                Ok(())
            } else {
                Err(Error::Os { code: self.error })
            }
        } else {
            Ok(())
        }
    }

    /// How taking entries off a port went, when the kernel said it removed
    /// `removed` of them: zero says that the call failed.
    pub open spec fn spec_removed(self, removed: u32) -> Result<u32, Error> {
        if self.ret == 0 {
            Err(Error::Os { code: self.error })
        } else {
            Ok(removed)
        }
    }

    /// How taking entries off a port went.
    #[verifier::when_used_as_spec(spec_removed)]
    pub fn removed(self, removed: u32) -> (result: Result<u32, Error>)
        ensures
            result == self.spec_removed(removed),
    {
        if self.ret == 0 {
            Err(Error::Os { code: self.error })
        } else {
            Ok(removed)
        }
    }
}

/// The call that closes `handle`.
pub fn close_handle(handle: HANDLE) -> (call: Syscall)
    ensures
        call == (Syscall::CloseHandle { handle }),
{
    Syscall::CloseHandle { handle }
}

/// The call that makes a new completion port, tied to no file yet.
pub fn create_completion_port() -> (call: Syscall)
    ensures
        call == (Syscall::CreateIoCompletionPort {
            file_handle: INVALID_HANDLE_VALUE,
            existing_port: 0,
            completion_key: 0,
            threads: 0,
        }),
{
    Syscall::CreateIoCompletionPort {
        file_handle: INVALID_HANDLE_VALUE,
        existing_port: 0,
        completion_key: 0,
        threads: 0,
    }
}

/// The call that ties the socket `s` to `completion_port`, with `token` as
/// the key of its completions.
pub open spec fn spec_create_io_completion_port(
    s: RawSocket,
    completion_port: HANDLE,
    token: usize,
) -> Syscall {
    Syscall::CreateIoCompletionPort {
        file_handle: s as isize,
        existing_port: completion_port,
        completion_key: token,
        threads: 0,
    }
}

/// The call that ties the socket `s` to `completion_port`, with `token` as
/// the key of its completions.
#[verifier::when_used_as_spec(spec_create_io_completion_port)]
pub fn create_io_completion_port(s: RawSocket, completion_port: HANDLE, token: usize) -> (call:
    Syscall)
    ensures
        call == spec_create_io_completion_port(s, completion_port, token),
{
    Syscall::CreateIoCompletionPort {
        file_handle: #[verifier::truncate] (s as isize),
        existing_port: completion_port,
        completion_key: token,
        threads: 0,
    }
}

/// The call that starts a receive on the socket `s` into the part of the
/// stream's buffer that `wsabuffer` describes, with `op` as its record.
pub open spec fn spec_wsa_recv(s: RawSocket, wsabuffer: WSABUF, op: Operation) -> Syscall {
    Syscall::WsaRecv { socket: s, buffer: wsabuffer, buffer_count: 1, flags: 0, operation: op }
}

/// The call that starts a receive on the socket `s` into the part of the
/// stream's buffer that `wsabuffer` describes, with `op` as its record.
#[verifier::when_used_as_spec(spec_wsa_recv)]
pub fn wsa_recv(s: RawSocket, wsabuffer: WSABUF, op: Operation) -> (call: Syscall)
    ensures
        call == spec_wsa_recv(s, wsabuffer, op),
{
    Syscall::WsaRecv { socket: s, buffer: wsabuffer, buffer_count: 1, flags: 0, operation: op }
}

/// The call that puts a completion of its own making on
/// `completion_port`.
pub fn post_queued_completion_status(
    completion_port: HANDLE,
    bytes_to_transfer: u32,
    completion_key: usize,
    overlapped: WSAOVERLAPPED,
) -> (call: Syscall)
    ensures
        call == (Syscall::PostQueuedCompletionStatus {
            port: completion_port,
            bytes: bytes_to_transfer,
            key: completion_key,
            overlapped,
        }),
{
    Syscall::PostQueuedCompletionStatus {
        port: completion_port,
        bytes: bytes_to_transfer,
        key: completion_key,
        overlapped,
    }
}

/// The call that takes up to `ul_count` entries off `completion_port`,
/// waiting `timeout` milliseconds for the first at most, or without limit
/// when there is no timeout.
pub open spec fn spec_get_queued_completion_status_ex(
    completion_port: HANDLE,
    ul_count: u32,
    timeout: Option<u32>,
    alertable: bool,
) -> Syscall {
    Syscall::GetQueuedCompletionStatusEx {
        port: completion_port,
        count: ul_count,
        timeout: match timeout {
            Some(ms) => ms,
            None => INFINITE,
        },
        alertable,
    }
}

/// The call that takes up to `ul_count` entries off `completion_port`,
/// waiting `timeout` milliseconds for the first at most, or without limit
/// when there is no timeout.
#[verifier::when_used_as_spec(spec_get_queued_completion_status_ex)]
pub fn get_queued_completion_status_ex(
    completion_port: HANDLE,
    ul_count: u32,
    timeout: Option<u32>,
    alertable: bool,
) -> (call: Syscall)
    ensures
        call == spec_get_queued_completion_status_ex(completion_port, ul_count, timeout, alertable),
{
    let timeout: u32 = timeout.unwrap_or(INFINITE);
    Syscall::GetQueuedCompletionStatusEx {
        port: completion_port,
        count: ul_count,
        timeout,
        alertable,
    }
}

/// A connected, non-blocking socket together with what receiving on a
/// completion port takes: the buffer the kernel writes to, the description
/// of the part of it that is lent out, how far the buffer has been read,
/// and the records of the receives that were started, oldest first.
#[derive(Debug)]
pub struct TcpStream {
    socket: RawSocket,
    buffer: Vec<u8>,
    wsabuf: Vec<WSABUF>,
    pos: usize,
    operations: Vec<Operation>,
}

impl TcpStream {
    /// The receive buffer never changes its size, the part lent to the
    /// kernel is all of it, and the read position lies within it.
    #[verifier::type_invariant]
    pub closed spec fn wf(&self) -> bool {
        &&& self.buffer@.len() == BUFFER_SIZE
        &&& self.wsabuf@ == seq![WSABUF { len: 1024, buf: 0 }]
        &&& self.pos <= self.buffer@.len()
    }

    /// The socket.
    pub closed spec fn socket(&self) -> RawSocket {
        self.socket
    }

    /// The bytes in the receive buffer.
    pub closed spec fn buffered(&self) -> Seq<u8> {
        self.buffer@
    }

    /// The parts of the receive buffer that are lent to the kernel.
    pub closed spec fn lent(&self) -> Seq<WSABUF> {
        self.wsabuf@
    }

    /// How many bytes of the receive buffer have been read.
    pub closed spec fn position(&self) -> nat {
        self.pos as nat
    }

    /// The records of the receives that were started, oldest first.
    pub closed spec fn operations(&self) -> Seq<Operation> {
        self.operations@
    }

    /// The stream for the connected, non-blocking socket `socket`: its
    /// buffer holds zeros, nothing has been read and no receive has been
    /// started.
    pub fn connect(socket: RawSocket) -> (stream: TcpStream)
        ensures
            stream.wf(),
            stream.socket() == socket,
            stream.buffered() == Seq::new(BUFFER_SIZE as nat, |i: int| 0u8),
            stream.lent() == seq![WSABUF { len: 1024, buf: 0 }],
            stream.position() == 0,
            stream.operations() == Seq::<Operation>::empty(),
    {
        let mut buffer: Vec<u8> = Vec::new();
        let mut i: usize = 0;
        while i < BUFFER_SIZE
            invariant
                i <= BUFFER_SIZE,
                buffer@ == Seq::new(i as nat, |i: int| 0u8),
            decreases BUFFER_SIZE - i,
        {
            buffer.push(0);
            i = i + 1;
        }
        let mut wsabuf: Vec<WSABUF> = Vec::new();
        wsabuf.push(WSABUF::new(1024, 0));
        TcpStream { socket, buffer, wsabuf, pos: 0, operations: Vec::new() }
    }

    /// The socket, for the registrator's use.
    pub fn as_raw_socket(&self) -> (socket: RawSocket)
        ensures
            socket == self.socket(),
    {
        self.socket
    }

    /// The records of the receives that were started, oldest first.
    pub fn records(&self) -> (records: &[Operation])
        ensures
            records@ == self.operations(),
    {
        self.operations.as_slice()
    }

    /// The part of the receive buffer that is lent to the kernel lies
    /// within the buffer.
    pub proof fn lent_lies_within_buffer(&self)
        requires
            self.wf(),
        ensures
            self.buffered().len() == BUFFER_SIZE,
            self.lent().len() == 1,
            self.lent()[0].buf + self.lent()[0].len <= self.buffered().len(),
            self.position() <= self.buffered().len(),
    {
    }

    /// Takes up what a completed receive wrote: `bytes` replace the start
    /// of the receive buffer, as far as they fit. Nothing else changes.
    pub fn fill(&mut self, bytes: &[u8])
        ensures
            final(self).wf(),
            ({
                let n = least(bytes@.len() as int, BUFFER_SIZE as int);
                final(self).buffered() == bytes@.take(n) + old(self).buffered().skip(n)
            }),
            final(self).socket() == old(self).socket(),
            final(self).lent() == old(self).lent(),
            final(self).position() == old(self).position(),
            final(self).operations() == old(self).operations(),
    {
        proof {
            use_type_invariant(&*self);
        }
        let n: usize = if bytes.len() <= BUFFER_SIZE {
            bytes.len()
        } else {
            BUFFER_SIZE
        };
        let mut i: usize = 0;
        while i < n
            invariant
                i <= n,
                n <= bytes@.len(),
                n <= BUFFER_SIZE,
                self.wf(),
                old(self).buffer@.len() == BUFFER_SIZE,
                self.buffer@ == bytes@.take(i as int) + old(self).buffer@.skip(i as int),
                self.socket == old(self).socket,
                self.wsabuf == old(self).wsabuf,
                self.pos == old(self).pos,
                self.operations == old(self).operations,
            decreases n - i,
        {
            self.buffer[i] = bytes[i];
            i = i + 1;
            assert(self.buffer@ =~= bytes@.take(i as int) + old(self).buffer@.skip(i as int));
        }
    }

    /// Reads from the receive buffer into `buff`, from the read position
    /// on: as many bytes as `buff` has room for, or as are left unread if
    /// that is fewer. The read position moves on by that many bytes. Never
    /// fails.
    pub fn read(&mut self, buff: &mut [u8]) -> (result: Result<usize, Error>)
        ensures
            final(self).wf(),
            ({
                let start = old(self).position() as int;
                let n = least(old(buff)@.len() as int, old(self).buffered().len() - start);
                &&& result == Ok::<usize, Error>(n as usize)
                &&& final(buff)@ == old(self).buffered().subrange(start, start + n) + old(
                    buff,
                )@.skip(n)
                &&& final(self).position() == start + n
            }),
            final(self).socket() == old(self).socket(),
            final(self).buffered() == old(self).buffered(),
            final(self).lent() == old(self).lent(),
            final(self).operations() == old(self).operations(),
    {
        proof {
            use_type_invariant(&*self);
        }
        let start: usize = self.pos;
        let unread: usize = self.buffer.len() - start;
        let n: usize = if buff.len() <= unread {
            buff.len()
        } else {
            unread
        };
        let mut i: usize = 0;
        while i < n
            invariant
                i <= n,
                n <= buff@.len(),
                start + n <= self.buffer@.len(),
                self.buffer@.len() == BUFFER_SIZE,
                buff@.len() == old(buff)@.len(),
                buff@ == self.buffer@.subrange(start as int, start + i) + old(buff)@.skip(i as int),
                *self == *old(self),
            decreases n - i,
        {
            buff[i] = self.buffer[start + i];
            i = i + 1;
        }
        self.pos = start + n;
        Ok(n)
    }
}

/// The request that ties the stream's socket to `port`; completions of the
/// socket carry the key zero.
pub open spec fn associate_call(port: HANDLE, socket: RawSocket) -> Syscall {
    create_io_completion_port(socket, port, 0)
}

/// What a registration comes to when the instance was found `dead`. A
/// closed instance refuses with "interrupted"; interest in writability is
/// refused as unimplemented; otherwise the socket is tied to the port.
pub open spec fn spec_register_when(
    port: HANDLE,
    dead: bool,
    socket: RawSocket,
    interests: Interests,
) -> Result<Syscall, Error> {
    if dead {
        Err(Error::InstanceDead)
    } else if interests.is_writable() {
        Err(Error::Unimplemented)
    } else {
        Ok(associate_call(port, socket))
    }
}

/// What closing comes to for the caller that found the instance `dead` or
/// not: whoever finds it closed already is refused with "interrupted", and
/// the one who closes it posts an empty completion, which wakes the waiter.
pub open spec fn spec_close_when(port: HANDLE, dead: bool) -> Result<Syscall, Error> {
    if dead {
        Err(Error::InstanceDead)
    } else {
        Ok(
            Syscall::PostQueuedCompletionStatus {
                port,
                bytes: 0,
                key: 0,
                overlapped: WSAOVERLAPPED::zeroed(),
            },
        )
    }
}

/// A capability to add sources to a selector and to wake it, which can be
/// handed to other threads.
#[derive(Debug)]
pub struct Registrator {
    completion_port: HANDLE,
    is_poll_dead: Arc<AtomicBool>,
}

impl Registrator {
    /// The completion port this registrator adds to.
    pub closed spec fn handle(&self) -> HANDLE {
        self.completion_port
    }

    /// The flag this registrator shares with its poll instance.
    pub closed spec fn flag(&self) -> Arc<AtomicBool> {
        self.is_poll_dead
    }

    /// What a registration comes to when the instance was found `dead`.
    pub fn register_when(port: HANDLE, dead: bool, socket: RawSocket, interests: Interests) -> (call:
        Result<Syscall, Error>)
        ensures
            call == spec_register_when(port, dead, socket, interests),
    {
        if dead {
            Err(Error::InstanceDead)
        } else if interests.is_writable() {
            Err(Error::Unimplemented)
        } else {
            Ok(create_io_completion_port(socket, port, 0))
        }
    }

    /// Registers interest in `soc`. Yields the first of the two calls to
    /// make, which ties the socket to the port; hand the reply to
    /// [`Registrator::receive`] together with the token. Whether the
    /// instance is closed is read from the shared flag at the moment of
    /// the call.
    pub fn register(&self, soc: &TcpStream, interests: Interests) -> (call: Result<Syscall, Error>)
        ensures
            call == spec_register_when(self.handle(), true, soc.socket(), interests) || call
                == spec_register_when(self.handle(), false, soc.socket(), interests),
    {
        let dead = flag::is_raised(&self.is_poll_dead);
        Registrator::register_when(self.completion_port, dead, soc.as_raw_socket(), interests)
    }

    /// The second step of a registration under `token`, given the reply to
    /// the call that ties the socket to the port. When that call went
    /// well, a record for `token` is added behind the records `soc` holds
    /// and the call that starts the receive is yielded; the registration
    /// stands once that call has gone well by [`Reply::received`]. When
    /// it failed, `soc` stays as it was. No record is ever taken away.
    pub fn receive(&self, soc: &mut TcpStream, token: usize, associated: Reply) -> (call: Result<
        Syscall,
        Error,
    >)
        ensures
            final(soc).wf(),
            match associated.handle() {
                Err(error) => call == Err::<Syscall, Error>(error) && final(soc).operations()
                    == old(soc).operations(),
                Ok(_) => call == Ok::<Syscall, Error>(
                    spec_wsa_recv(old(soc).socket(), old(soc).lent()[0], Operation::new(token)),
                ) && final(soc).operations() == old(soc).operations().push(Operation::new(token)),
            },
            final(soc).socket() == old(soc).socket(),
            final(soc).buffered() == old(soc).buffered(),
            final(soc).lent() == old(soc).lent(),
            final(soc).position() == old(soc).position(),
    {
        proof {
            use_type_invariant(&*soc);
        }
        match associated.handle() {
            Err(error) => Err(error),
            Ok(_) => {
                let op = Operation::new(token);
                let mut operations: Vec<Operation> = Vec::new();
                std::mem::swap(&mut soc.operations, &mut operations);
                operations.push(op);
                std::mem::swap(&mut soc.operations, &mut operations);
                Ok(wsa_recv(soc.socket, soc.wsabuf[0], op))
            },
        }
    }

    /// What closing comes to for the caller that found the instance `dead`
    /// or not.
    pub fn close_when(port: HANDLE, dead: bool) -> (call: Result<Syscall, Error>)
        ensures
            call == spec_close_when(port, dead),
    {
        if dead {
            Err(Error::InstanceDead)
        } else {
            Ok(post_queued_completion_status(port, 0, 0, WSAOVERLAPPED::zeroed()))
        }
    }

    /// Closes the poll instance: raises the shared flag and, if it was not
    /// raised before, yields the call that wakes the waiter.
    pub fn close_loop(&self) -> (call: Result<Syscall, Error>)
        ensures
            call == spec_close_when(self.handle(), true) || call == spec_close_when(
                self.handle(),
                false,
            ),
    {
        let dead = flag::raise(&self.is_poll_dead);
        Registrator::close_when(self.completion_port, dead)
    }
}

/// The number of entries to ask the kernel for when the buffer has room for
/// `capacity`: all of them, as far as the kernel's counter reaches.
pub open spec fn spec_max_entries(capacity: usize) -> u32 {
    if capacity > u32::MAX {
        u32::MAX
    } else {
        capacity as u32
    }
}

/// The number of entries to ask the kernel for when the buffer has room for
/// `capacity`.
#[verifier::when_used_as_spec(spec_max_entries)]
pub fn max_entries(capacity: usize) -> (n: u32)
    ensures
        n == spec_max_entries(capacity),
{
    if capacity > u32::MAX as usize {
        u32::MAX
    } else {
        capacity as u32
    }
}

/// The timeout as the kernel counts it.
pub open spec fn kernel_timeout(timeout: Option<i32>) -> Option<u32> {
    match timeout {
        Some(ms) => Some(ms as u32),
        None => None,
    }
}

/// The wait a selector on `port` makes for a buffer with room for
/// `capacity` events. The wait cannot be alerted.
pub open spec fn wait_call(port: HANDLE, capacity: usize, timeout: Option<i32>) -> Syscall {
    get_queued_completion_status_ex(port, max_entries(capacity), kernel_timeout(timeout), false)
}

/// How many entries a wait took off the port, when the kernel answered
/// `reply` and said it removed `removed`. Running out of time is no
/// failure: it means that nothing was removed.
pub open spec fn removed_count(reply: Reply, removed: u32) -> Result<u32, Error> {
    match reply.removed(removed) {
        Ok(n) => Ok(n),
        Err(error) => if error.raw_os_error() == Some(WAIT_TIMEOUT) {
            Ok(0u32)
        } else {
            Err(error)
        },
    }
}

/// What a finished wait leaves in a buffer with room for `capacity` events,
/// when the kernel answered `reply`, said it removed `removed` entries and
/// wrote `entries`: the entries taken off the port, or the error that made
/// the wait fail.
pub open spec fn waited(reply: Reply, removed: u32, entries: Seq<Event>, capacity: usize) -> Result<
    Seq<Event>,
    Error,
> {
    match removed_count(reply, removed) {
        Err(error) => Err(error),
        Ok(n) => Ok(entries.take(admitted(n as int, entries.len() as int, capacity as int))),
    }
}

/// Owns the completion port.
#[derive(Debug)]
pub struct Selector {
    completion_port: HANDLE,
}

impl Selector {
    /// The completion port this selector owns.
    pub closed spec fn handle(&self) -> HANDLE {
        self.completion_port
    }

    /// The selector for the port that `created`, the reply to
    /// [`create_completion_port`], brought; or the error that call failed
    /// with.
    pub fn new(created: Reply) -> (selector: Result<Selector, Error>)
        ensures
            match created.handle() {
                Ok(port) => selector matches Ok(s) && s.handle() == port,
                Err(error) => selector matches Err(e) && e == error,
            },
    {
        match created.handle() {
            Ok(completion_port) => Ok(Selector { completion_port }),
            Err(error) => Err(error),
        }
    }

    /// A registrator for this selector that shares `is_poll_dead`.
    pub fn registrator(&self, is_poll_dead: Arc<AtomicBool>) -> (registrator: Registrator)
        ensures
            registrator.handle() == self.handle(),
            registrator.flag() == is_poll_dead,
    {
        Registrator { completion_port: self.completion_port, is_poll_dead }
    }

    /// Starts a wait: empties `events` and yields the call that blocks
    /// until a completion is there or the timeout, in milliseconds, has
    /// passed. Without a timeout the call waits without limit. It asks for
    /// no more entries than `events` has room for.
    pub fn select(&mut self, events: &mut Events, timeout: Option<i32>) -> (call: Syscall)
        ensures
            call == wait_call(old(self).handle(), old(events).capacity(), timeout),
            final(events)@ == Seq::<Event>::empty(),
            final(events).capacity() == old(events).capacity(),
            *final(self) == *old(self),
    {
        let timeout: Option<u32> = match timeout {
            Some(ms) => Some(#[verifier::truncate] (ms as u32)),
            None => None,
        };
        events.clear();
        let ul_count: u32 = max_entries(events.capacity());
        get_queued_completion_status_ex(self.completion_port, ul_count, timeout, false)
    }

    /// Finishes a wait: given the kernel's reply, the number of entries it
    /// said it removed and the entries it wrote, puts the entries taken
    /// off the port into `events`. A wait that ran out of time leaves
    /// `events` empty and is no failure. When the wait failed, `events` is
    /// left empty and the error is returned. The capacity of `events` is
    /// never exceeded and never changed.
    pub fn selected(
        &mut self,
        events: &mut Events,
        reply: Reply,
        removed: u32,
        entries: Vec<Event>,
    ) -> (result: Result<(), Error>)
        ensures
            match waited(reply, removed, entries@, old(events).capacity()) {
                Ok(reported) => result is Ok && final(events)@ == reported,
                Err(error) => result == Err::<(), Error>(error) && final(events)@ == Seq::<
                    Event,
                >::empty(),
            },
            final(events)@.len() <= final(events).capacity(),
            final(events).capacity() == old(events).capacity(),
            *final(self) == *old(self),
    {
        let removed: u32 = match reply.removed(removed) {
            Ok(n) => n,
            Err(error) => {
                if error.raw_os_error() == Some(WAIT_TIMEOUT) {
                    0
                } else {
                    events.clear();
                    return Err(error);
                }
            },
        };
        events.fill(entries, removed as usize);
        Ok(())
    }

    /// The call that gives the port back to the kernel. It is due when the
    /// selector is dropped.
    pub fn close(&self) -> (call: Syscall)
        ensures
            call == (Syscall::CloseHandle { handle: self.handle() }),
    {
        close_handle(self.completion_port)
    }

    /// What dropping the selector comes to, given the reply to
    /// [`Selector::close`]: a failure to close is raised as a panic, so
    /// that a leaked handle is noticed, unless the thread is panicking
    /// already. Yields the error to panic with, if any.
    pub fn dropped(&self, closed: Reply, panicking: bool) -> (raise: Option<Error>)
        ensures
            raise == match closed.done() {
                Err(error) if !panicking => Some(error),
                _ => None::<Error>,
            },
    {
        match closed.done() {
            Err(error) => if panicking {
                None
            } else {
                Some(error)
            },
            Ok(_) => None,
        }
    }
}

/// The event queue on a completion port.
pub type Poll = crate::Poll<Selector>;

impl crate::Poll<Selector> {
    /// A poll instance on the port that `created`, the reply to
    /// [`create_completion_port`], brought; or the error that call failed
    /// with.
    pub fn new(created: Reply) -> (poll: Result<Poll, Error>)
        ensures
            match created.handle() {
                Ok(port) => poll matches Ok(p) && p.selector().handle() == port,
                Err(error) => poll matches Err(e) && e == error,
            },
    {
        match Selector::new(created) {
            Ok(selector) => Ok(
                crate::Poll { registry: Registry { selector }, is_poll_dead: flag::lowered() },
            ),
            Err(error) => Err(error),
        }
    }

    /// A registrator tied to this event queue, which can be sent to another
    /// thread.
    pub fn registrator(&self) -> (registrator: Registrator)
        ensures
            registrator.handle() == self.selector().handle(),
            registrator.flag() == self.flag(),
    {
        self.registry.selector.registrator(flag::share(&self.is_poll_dead))
    }

    /// Registers interest in `soc` under a token of the caller's choosing.
    /// Yields the token and the first of the two calls to make; hand the
    /// reply to [`Registrator::receive`].
    pub fn register_with_id(&self, soc: &TcpStream, interests: Interests, token: Token) -> (call:
        Result<(Token, Syscall), Error>)
        ensures
            ({
                let port = self.selector().handle();
                let dead = spec_register_when(port, true, soc.socket(), interests);
                let alive = spec_register_when(port, false, soc.socket(), interests);
                call == tagged(token, dead) || call == tagged(token, alive)
            }),
    {
        let dead = flag::is_raised(&self.is_poll_dead);
        let port = self.registry.selector.completion_port;
        match Registrator::register_when(port, dead, soc.as_raw_socket(), interests) {
            Ok(call) => Ok((token, call)),
            Err(error) => Err(error),
        }
    }

    /// Registers interest in `soc` under the next token of `tokens`, which
    /// is used up whether or not the registration is accepted. Yields the
    /// token and the first of the two calls to make.
    pub fn register(&self, tokens: &mut TokenAllocator, soc: &TcpStream, interests: Interests) -> (call:
        Result<(Token, Syscall), Error>)
        ensures
            final(tokens).upcoming() == crate::token::successor(old(tokens).upcoming()),
            ({
                let port = self.selector().handle();
                let token = old(tokens).upcoming();
                let dead = spec_register_when(port, true, soc.socket(), interests);
                let alive = spec_register_when(port, false, soc.socket(), interests);
                call == tagged(token, dead) || call == tagged(token, alive)
            }),
    {
        let token = tokens.allocate();
        self.register_with_id(soc, interests, token)
    }

    /// Starts a poll: empties `events` and yields the call that blocks
    /// until a completion is there or the timeout has passed. A negative
    /// timeout counts as zero. Hand the reply to [`Poll::resume`].
    pub fn poll(&mut self, events: &mut Events, timeout_ms: Option<i32>) -> (call: Syscall)
        ensures
            call == wait_call(
                old(self).selector().handle(),
                old(events).capacity(),
                clamp_timeout(timeout_ms),
            ),
            final(events)@ == Seq::<Event>::empty(),
            final(events).capacity() == old(events).capacity(),
            *final(self) == *old(self),
    {
        let timeout = clamp_timeout(timeout_ms);
        self.registry.selector.select(events, timeout)
    }

    /// Goes on with a poll once the wait has come back: puts the entries
    /// taken off the port into `events` and says whether to wait again or
    /// what the poll returns. Whether the instance is closed is read from
    /// the shared flag after a wait that succeeded.
    pub fn resume(&mut self, events: &mut Events, reply: Reply, removed: u32, entries: Vec<Event>) -> (step:
        PollStep)
        ensures
            ({
                let selected = unit(waited(reply, removed, entries@, old(events).capacity()));
                let n = final(events)@.len() as usize;
                step == poll_outcome(selected, true, n) || step == poll_outcome(selected, false, n)
            }),
            match waited(reply, removed, entries@, old(events).capacity()) {
                Ok(reported) => final(events)@ == reported,
                Err(_) => final(events)@ == Seq::<Event>::empty(),
            },
            final(events)@.len() <= final(events).capacity(),
            final(events).capacity() == old(events).capacity(),
            *final(self) == *old(self),
    {
        let selected = self.registry.selector.selected(events, reply, removed, entries);
        let dead = match selected {
            Ok(_) => flag::is_raised(&self.is_poll_dead),
            Err(_) => false,
        };
        poll_outcome(selected, dead, events.len())
    }
}

/// Closing is final. Whoever closes an instance that is still open is given
/// the call that wakes the waiter. From then on the instance is found
/// closed, and whoever finds it closed is refused as interrupted, to
/// register as well as to close once more, and is given no call to make. A
/// poll whose wait went well and that finds the instance closed ends as
/// interrupted, with the text "Poll closed.".
pub proof fn closed_is_final(port: HANDLE, socket: RawSocket, interests: Interests, n: usize)
    ensures
        spec_close_when(port, false) is Ok,
        spec_close_when(port, true) matches Err(error) && error.is_interrupted(),
        spec_register_when(port, true, socket, interests) matches Err(error)
            && error.is_interrupted(),
        poll_outcome(Ok(()), true, n) matches PollStep::Done(Err(error)) && error.is_interrupted()
            && error.spec_message() == "Poll closed."@,
{
}

/// The token given at registration is the one the event brings back: the
/// call that starts the receive carries a record with the token, and the
/// entry for the completion of that record has the token as its `id`,
/// whatever the kernel wrote to the record's header and to the rest of the
/// entry in the meantime.
pub proof fn token_round_trips(
    socket: RawSocket,
    buffer: WSABUF,
    token: usize,
    entry: OVERLAPPED_ENTRY,
)
    requires
        wsa_recv(socket, buffer, Operation::new(token)) matches Syscall::WsaRecv {
            operation,
            ..
        } && entry.lp_overlapped matches Some(completed) && completed.token == operation.token,
    ensures
        entry.id() == token,
{
}

} // verus!
