//! What the streams of all platforms have in common: the resources that they hold, and the words
//! in which they say what a caller has to do next and hear what came of it.
//!
//! Four kinds of resources pass through a stream without being looked at: `S` is a socket that is
//! not connected yet, `C` a connected stream that the event loop knows, `W` the waker of a task,
//! and `O` the record of a connection attempt that runs in the background (`OVERLAPPED`). `E` is
//! the error of an operation.

pub mod platform;
pub mod unix;
pub mod windows;

use core::mem;
use core::time::Duration;

use vstd::prelude::*;

use crate::addr::{AddressFamily, SocketAddr};
use crate::io::{Failure, Poll};

verus! {

/// The resource behind a stream.
#[derive(Debug, PartialEq, Eq)]
pub enum TcpStreamOption<S, C, W> {
    /// A stream registered with the event loop.
    Connected(C),
    /// A socket that is to connect to `addr` with the first write. `reader` is the task that waits
    /// to read.
    Connecting { socket: S, addr: SocketAddr, reader: Option<W> },
    /// Nothing: the socket was handed out to become a registered stream, and has not come back.
    Empty,
}

/// A reference to whichever resource a stream holds.
#[derive(Debug, PartialEq, Eq)]
pub enum Handle<'a, S, C> {
    Socket(&'a S),
    Stream(&'a C),
}

/// Where the address of the peer is to be had from.
#[derive(Debug, PartialEq, Eq)]
pub enum PeerAddr<'a, C> {
    /// It is this address, which the stream is going to connect to.
    Known(SocketAddr),
    /// The connected stream knows it.
    Ask(&'a C),
}

/// An operation on a socket that does not depend on how far its connection is.
#[derive(Debug, PartialEq, Eq)]
pub enum SocketOp {
    LocalAddr,
    Nodelay,
    SetNodelay(bool),
    Linger,
    SetLinger(Option<Duration>),
    Ttl,
    SetTtl(u32),
}

/// An operation, and the resource to perform it on. What the operation returns is the answer.
#[derive(Debug, PartialEq, Eq)]
pub struct SocketCall<'a, S, C> {
    pub target: Handle<'a, S, C>,
    pub op: SocketOp,
}

/// An option of a socket.
#[derive(Clone, Copy, Debug, PartialEq, Eq, Structural)]
pub enum SocketOption {
    /// `TCP_FASTOPEN`
    FastOpen,
    /// `TCP_FASTOPEN_CONNECT`
    FastOpenConnect,
    /// `TCP_FASTOPEN_FORCE_ENABLE`
    FastOpenForceEnable,
}

/// An option at the level of TCP, and the integer to set it to.
#[derive(Clone, Copy, Debug, PartialEq, Eq, Structural)]
pub struct OptionSetting {
    pub option: SocketOption,
    pub value: i32,
}

/// An option to set on a socket.
#[derive(Debug, PartialEq, Eq)]
pub struct OptionCall<'a, T> {
    pub socket: &'a T,
    pub setting: OptionSetting,
}

/// What a caller of `poll_read` has to do.
#[derive(Debug, PartialEq, Eq)]
pub enum ReadAction<W> {
    /// Poll the connected stream: its answer is the answer.
    PollRead,
    /// Wake the task that waited before, if there is one, and report that reading is pending.
    Park { wake: Option<W> },
}

/// What a caller of `poll_flush` or `poll_shutdown` has to do.
#[derive(Clone, Copy, Debug, PartialEq, Eq, Structural)]
pub enum FlushAction {
    /// Poll the connected stream: its answer is the answer.
    Delegate,
    /// Report success: nothing was sent yet.
    Done,
}

/// How a write goes on once the socket that was handed out is a registered stream.
#[derive(Debug, PartialEq, Eq)]
pub enum AfterRegister<O> {
    /// The data was sent along with the connection request: report that many bytes.
    Sent(usize),
    /// The connection is being made without data.
    Handshake,
    /// The connection is being made, with the data, in the background.
    Overlapped(O),
}

/// What was taken out of a stream together with its socket.
#[derive(Debug, PartialEq, Eq)]
pub struct Handover<W, O> {
    pub then_do: AfterRegister<O>,
    pub reader: Option<W>,
}

/// What a caller of `poll_write` has to do next. `payload` is the whole buffer of the write.
#[derive(Debug, PartialEq, Eq)]
pub enum WriteAction<'b, S, W, O, E> {
    /// Write to the connected stream: its answer is the answer.
    PollWrite(&'b [u8]),
    /// Ask the connected stream whether it is ready to be written to.
    PollWriteReady,
    /// Fetch and clear the pending error (`SO_ERROR`) of the connected stream.
    TakeError { sent: Option<usize> },
    /// Send to `addr` on the socket that is not connected yet, with the flag `MSG_FASTOPEN` or
    /// without any.
    SendTo { addr: SocketAddr, fast_open: bool, payload: &'b [u8] },
    /// Call `ConnectEx` on the socket that is not connected yet, with a fresh record.
    ConnectEx { addr: SocketAddr, payload: &'b [u8] },
    /// Set `SO_UPDATE_CONNECT_CONTEXT` on `socket`.
    UpdateContext { socket: S, handover: Handover<W, O> },
    /// Turn `socket` into a stream registered with the event loop.
    Register { socket: S, handover: Handover<W, O> },
    /// If the connected stream is still writable, send on it without any flag.
    TrySend(&'b [u8]),
    /// If the connected stream is still writable, fetch the result of its `ConnectEx`.
    TryConnectResult,
    /// The write is over, for this time: this is its answer.
    Return(Poll<Result<usize, E>>),
}

/// A task to wake, if there is one, and what to do after that.
#[derive(Debug, PartialEq, Eq)]
pub struct WriteStep<'b, S, W, O, E> {
    pub wake: Option<W>,
    pub action: WriteAction<'b, S, W, O, E>,
}

/// The beginning of a write, or what came of the last action of one.
#[allow(inconsistent_fields)]
#[derive(Debug, PartialEq, Eq)]
pub enum WriteEvent<S, C, W, O, E> {
    /// The write begins.
    Start,
    /// Answers `PollWriteReady`.
    WriteReady(Poll<Result<(), E>>),
    /// Answers `TakeError`: the pending error if there was one, or why it could not be fetched.
    SocketError { sent: Option<usize>, result: Result<Option<E>, E> },
    /// Answers `SendTo`: the number of bytes that were sent.
    SentTo(Result<usize, Failure<E>>),
    /// Answers `ConnectEx`: the number of bytes that were sent.
    ConnectExReturned { overlapped: O, result: Result<u32, Failure<E>> },
    /// Answers `UpdateContext`.
    ContextUpdated { socket: S, handover: Handover<W, O>, result: Result<(), E> },
    /// Answers `Register`.
    Registered { handover: Handover<W, O>, result: Result<C, E> },
    /// Answers `TrySend`. `connecting` tells that the system has begun to connect instead.
    TriedSend { connecting: bool, result: Result<usize, Failure<E>> },
    /// Answers `TryConnectResult`: the number of bytes that were sent.
    ConnectResult(Result<usize, Failure<E>>),
}

/// A socket on its way to be connected to `addr`.
#[derive(Debug, PartialEq, Eq)]
pub struct ConnectTicket<S> {
    pub socket: S,
    pub addr: SocketAddr,
}

/// What has to be done to connect a stream.
#[derive(Debug, PartialEq, Eq)]
pub enum ConnectAction<S> {
    /// Create a socket of this family.
    NewSocket { family: AddressFamily, addr: SocketAddr },
    /// Set an option on the socket.
    SetOption { ticket: ConnectTicket<S>, setting: OptionSetting },
    /// Bind the socket to a local address.
    Bind { ticket: ConnectTicket<S>, local: SocketAddr },
    /// Connect the socket to the address and wait for the stream.
    Connect(ConnectTicket<S>),
    /// Call `connectx` for the address, with the flags `CONNECT_DATA_IDEMPOTENT` and
    /// `CONNECT_RESUME_ON_READ_WRITE`.
    ConnectX(ConnectTicket<S>),
    /// Turn the socket into a stream registered with the event loop.
    Register(S),
}

/// The next action, or the end.
#[derive(Debug, PartialEq, Eq)]
pub enum ConnectStep<S, T, E> {
    Do(ConnectAction<S>),
    Return(Result<T, E>),
}

/// What came of an action.
#[allow(inconsistent_fields)]
#[derive(Debug, PartialEq, Eq)]
pub enum ConnectEvent<S, C, E> {
    /// Answers `NewSocket`.
    SocketCreated { addr: SocketAddr, result: Result<S, E> },
    /// Answers `SetOption`.
    OptionSet { ticket: ConnectTicket<S>, result: Result<(), Failure<E>> },
    /// Answers `Bind`.
    Bound { ticket: ConnectTicket<S>, result: Result<(), Failure<E>> },
    /// Answers `Connect`.
    Connected(Result<C, E>),
    /// Answers `ConnectX`.
    ConnectXReturned { ticket: ConnectTicket<S>, result: Result<(), E> },
    /// Answers `Register`.
    Registered(Result<C, E>),
}

impl<S, C, W> TcpStreamOption<S, C, W> {
    /// A socket that will connect to `addr` when it is first written to.
    pub open spec fn target(socket: S, addr: SocketAddr) -> Self {
        TcpStreamOption::Connecting { socket, addr, reader: None }
    }

    /// The resource that a system call on the stream has to go to.
    pub open spec fn spec_handle(&self) -> Handle<'_, S, C>
        recommends
            !(self is Empty),
    {
        match self {
            TcpStreamOption::Connected(stream) => Handle::Stream(stream),
            TcpStreamOption::Connecting { socket, .. } => Handle::Socket(socket),
            TcpStreamOption::Empty => arbitrary(),
        }
    }

    /// The address to connect to while there is no connection; what the stream says after that.
    pub open spec fn spec_peer_addr(&self) -> PeerAddr<'_, C>
        recommends
            !(self is Empty),
    {
        match self {
            TcpStreamOption::Connected(stream) => PeerAddr::Ask(stream),
            TcpStreamOption::Connecting { addr, .. } => PeerAddr::Known(*addr),
            TcpStreamOption::Empty => arbitrary(),
        }
    }

    /// A read by the task of `waker`: a connected stream is polled. Before that the task is parked,
    /// and the one that was parked before is to be woken.
    pub open spec fn spec_poll_read(self, waker: W) -> (Self, ReadAction<W>)
        recommends
            !(self is Empty),
    {
        match self {
            TcpStreamOption::Connected(_) => (self, ReadAction::PollRead),
            TcpStreamOption::Connecting { socket, addr, reader } => (
                TcpStreamOption::Connecting { socket, addr, reader: Some(waker) },
                ReadAction::Park { wake: reader },
            ),
            TcpStreamOption::Empty => arbitrary(),
        }
    }

    /// Only a connected stream has anything to flush or shut down.
    pub open spec fn spec_poll_flush(&self) -> FlushAction {
        if self is Connected {
            FlushAction::Delegate
        } else {
            FlushAction::Done
        }
    }

    /// The connected stream.
    pub fn connected(&mut self) -> (stream: &mut C)
        requires
            *old(self) is Connected,
        ensures
            *stream == old(self)->Connected_0,
            *final(self) == TcpStreamOption::<S, C, W>::Connected(*final(stream)),
    {
        match self {
            TcpStreamOption::Connected(stream) => stream,
            _ => vstd::pervasive::unreached(),
        }
    }

    /// Takes the resource out and leaves nothing.
    pub(crate) fn take(&mut self) -> (taken: Self)
        ensures
            taken == *old(self),
            *final(self) == TcpStreamOption::<S, C, W>::Empty,
    {
        let mut taken = TcpStreamOption::Empty;
        mem::swap(&mut taken, self);
        taken
    }

    /// The resource that a system call on the stream has to go to.
    pub fn handle(&self) -> (handle: Handle<'_, S, C>)
        requires
            !(self is Empty),
        ensures
            handle == self.spec_handle(),
    {
        match self {
            TcpStreamOption::Connected(stream) => Handle::Stream(stream),
            TcpStreamOption::Connecting { socket, .. } => Handle::Socket(socket),
            TcpStreamOption::Empty => vstd::pervasive::unreached(),
        }
    }

    /// An operation on the resource.
    pub fn call(&self, op: SocketOp) -> (call: SocketCall<'_, S, C>)
        requires
            !(self is Empty),
        ensures
            call == (SocketCall { target: self.spec_handle(), op }),
    {
        SocketCall { target: self.handle(), op }
    }

    /// Where the address of the peer is to be had from.
    pub fn peer_addr(&self) -> (peer: PeerAddr<'_, C>)
        requires
            !(self is Empty),
        ensures
            peer == self.spec_peer_addr(),
    {
        match self {
            TcpStreamOption::Connected(stream) => PeerAddr::Ask(stream),
            TcpStreamOption::Connecting { addr, .. } => PeerAddr::Known(*addr),
            TcpStreamOption::Empty => vstd::pervasive::unreached(),
        }
    }

    /// Begins a read by the task of `waker`.
    pub fn poll_read(&mut self, waker: W) -> (action: ReadAction<W>)
        requires
            !(*old(self) is Empty),
        ensures
            (*final(self), action) == old(self).spec_poll_read(waker),
    {
        match self {
            TcpStreamOption::Connected(_) => ReadAction::PollRead,
            TcpStreamOption::Connecting { reader, .. } => {
                let wake = reader.take();
                *reader = Some(waker);
                ReadAction::Park { wake }
            },
            TcpStreamOption::Empty => vstd::pervasive::unreached(),
        }
    }

    /// Begins a flush or a shutdown.
    pub fn poll_flush(&self) -> (action: FlushAction)
        ensures
            action == self.spec_poll_flush(),
    {
        match self {
            TcpStreamOption::Connected(_) => FlushAction::Delegate,
            _ => FlushAction::Done,
        }
    }
}

} // verus!
