//! Streams on macOS, iOS, watchOS and tvOS.
//!
//! TFO is a matter of `connectx` there: it puts off the connection request until the first write.

use core::time::Duration;

use vstd::prelude::*;

use crate::addr::SocketAddr;
use crate::io::{ErrorKind, Poll};
use crate::sys::{
    ConnectAction, ConnectEvent, ConnectStep, ConnectTicket, FlushAction, Handle, OptionCall,
    OptionSetting, PeerAddr, ReadAction, SocketCall, SocketOp, SocketOption, WriteAction,
    WriteEvent, WriteStep,
};

verus! {

/// How far the connection of a stream is.
#[derive(Clone, Copy, Debug, PartialEq, Eq, Structural)]
pub enum TcpStreamState {
    /// There is a connection, or one is being made that the system waits for by itself.
    Connected,
    /// The first write carries the connection request that `connectx` held back.
    FastOpenWrite,
}

/// A `TcpStream` that supports TFO (TCP Fast Open)
#[derive(Debug, PartialEq, Eq)]
pub struct TcpStream<C> {
    pub inner: C,
    pub state: TcpStreamState,
}

/// The setting that makes a listener accept TFO.
pub open spec fn fast_open() -> OptionSetting {
    OptionSetting { option: SocketOption::FastOpen, value: 1 }
}

/// The setting that makes a socket use TFO whatever the system thinks of its peers.
pub open spec fn fast_open_force_enable() -> OptionSetting {
    OptionSetting { option: SocketOption::FastOpenForceEnable, value: 1 }
}

impl<C> TcpStream<C> {
    /// A stream that is connected.
    pub open spec fn spec_from(stream: C) -> Self {
        TcpStream { inner: stream, state: TcpStreamState::Connected }
    }

    /// A stream whose first write will send its connection request.
    pub open spec fn requested(stream: C) -> Self {
        TcpStream { inner: stream, state: TcpStreamState::FastOpenWrite }
    }

    /// The events that can occur in the connection of a stream.
    pub open spec fn accepts_connect<S, E>(event: ConnectEvent<S, C, E>) -> bool {
        event is SocketCreated || event is ConnectXReturned || event is Registered
    }

    /// How a socket is connected.
    pub open spec fn spec_connect_with_socket<S, E>(socket: S, addr: SocketAddr) -> ConnectStep<
        S,
        Self,
        E,
    > {
        ConnectStep::Do(ConnectAction::ConnectX(ConnectTicket { socket, addr }))
    }

    /// What follows upon an event in the connection of a stream.
    pub open spec fn spec_resume_connect<S, E>(event: ConnectEvent<S, C, E>) -> ConnectStep<
        S,
        Self,
        E,
    >
        recommends
            Self::accepts_connect(event),
    {
        match event {
            ConnectEvent::SocketCreated { addr, result } => match result {
                Ok(socket) => Self::spec_connect_with_socket(socket, addr),
                Err(error) => ConnectStep::Return(Err(error)),
            },
            ConnectEvent::ConnectXReturned { ticket, result } => match result {
                Ok(_) => ConnectStep::Do(ConnectAction::Register(ticket.socket)),
                Err(error) => ConnectStep::Return(Err(error)),
            },
            ConnectEvent::Registered(result) => match result {
                Ok(stream) => ConnectStep::Return(Ok(Self::requested(stream))),
                Err(error) => ConnectStep::Return(Err(error)),
            },
            _ => arbitrary(),
        }
    }

    /// What a write does in the state that the stream is in.
    pub open spec fn pending_action<'b, S, W, O, E>(self, buf: &'b [u8]) -> WriteAction<
        'b,
        S,
        W,
        O,
        E,
    > {
        match self.state {
            TcpStreamState::Connected => WriteAction::PollWrite(buf),
            TcpStreamState::FastOpenWrite => WriteAction::PollWriteReady,
        }
    }

    /// The events that can occur in a write, given how far the connection is.
    pub open spec fn accepts<S, W, O, E>(&self, event: WriteEvent<S, C, W, O, E>) -> bool {
        match event {
            WriteEvent::Start => true,
            WriteEvent::WriteReady(_) => self.state == TcpStreamState::FastOpenWrite,
            WriteEvent::TriedSend { .. } => self.state == TcpStreamState::FastOpenWrite,
            _ => false,
        }
    }

    /// The stream in another state.
    pub open spec fn in_state(self, state: TcpStreamState) -> Self {
        TcpStream { state, ..self }
    }

    /// The stream goes on with the action of its state.
    pub open spec fn go_on<'b, S, W, O, E>(self, buf: &'b [u8]) -> (
        Self,
        WriteStep<'b, S, W, O, E>,
    ) {
        (self, WriteStep { wake: None, action: self.pending_action(buf) })
    }

    /// The write ends with this answer.
    pub open spec fn finish<'b, S, W, O, E>(self, answer: Poll<Result<usize, E>>) -> (
        Self,
        WriteStep<'b, S, W, O, E>,
    ) {
        (self, WriteStep { wake: None, action: WriteAction::Return(answer) })
    }

    /// What a write of `buf` does upon an event: the stream after it, and the next step.
    pub open spec fn spec_poll_write<'b, S, W, O, E>(
        self,
        buf: &'b [u8],
        event: WriteEvent<S, C, W, O, E>,
    ) -> (Self, WriteStep<'b, S, W, O, E>)
        recommends
            self.accepts(event),
    {
        match event {
            WriteEvent::Start => self.go_on(buf),
            WriteEvent::WriteReady(Poll::Pending) => self.finish(Poll::Pending),
            WriteEvent::WriteReady(Poll::Ready(Err(error))) => self.finish(Poll::Ready(Err(error))),
            WriteEvent::WriteReady(Poll::Ready(Ok(_))) => (
                self,
                WriteStep { wake: None, action: WriteAction::TrySend(buf) },
            ),
            WriteEvent::TriedSend { result: Ok(n), .. } => self.in_state(
                TcpStreamState::Connected,
            ).finish(Poll::Ready(Ok(n))),
            WriteEvent::TriedSend { connecting, result: Err(failure) } => if failure.kind
                == ErrorKind::WouldBlock {
                if connecting {
                    self.in_state(TcpStreamState::Connected).go_on(buf)
                } else {
                    self.go_on(buf)
                }
            } else {
                self.finish(Poll::Ready(Err(failure.error)))
            },
            _ => arbitrary(),
        }
    }

    /// Begins to connect a new socket to `addr`.
    pub fn connect<S, E>(addr: SocketAddr) -> (step: ConnectStep<S, Self, E>)
        ensures
            step == ConnectStep::<S, Self, E>::Do(
                ConnectAction::NewSocket { family: addr.spec_family(), addr },
            ),
            step matches ConnectStep::Do(ConnectAction::NewSocket { family, addr: a }) && {
                &&& a == addr
                &&& family is V6 <==> addr is V6
            },
    {
        ConnectStep::Do(ConnectAction::NewSocket { family: addr.family(), addr })
    }

    /// Begins to connect `socket` to `addr`.
    pub fn connect_with_socket<S, E>(socket: S, addr: SocketAddr) -> (step: ConnectStep<S, Self, E>)
        ensures
            step == Self::spec_connect_with_socket::<S, E>(socket, addr),
    {
        ConnectStep::Do(ConnectAction::ConnectX(ConnectTicket { socket, addr }))
    }

    /// Goes on connecting.
    pub fn resume_connect<S, E>(event: ConnectEvent<S, C, E>) -> (step: ConnectStep<S, Self, E>)
        requires
            Self::accepts_connect(event),
        ensures
            step == Self::spec_resume_connect(event),
    {
        match event {
            ConnectEvent::SocketCreated { addr, result: Ok(socket) } => {
                Self::connect_with_socket(socket, addr)
            },
            ConnectEvent::SocketCreated { result: Err(error), .. } => {
                ConnectStep::Return(Err(error))
            },
            ConnectEvent::ConnectXReturned { ticket, result: Ok(_) } => {
                ConnectStep::Do(ConnectAction::Register(ticket.socket))
            },
            ConnectEvent::ConnectXReturned { result: Err(error), .. } => {
                ConnectStep::Return(Err(error))
            },
            ConnectEvent::Registered(Ok(stream)) => {
                ConnectStep::Return(
                    Ok(TcpStream { inner: stream, state: TcpStreamState::FastOpenWrite }),
                )
            },
            ConnectEvent::Registered(Err(error)) => ConnectStep::Return(Err(error)),
            _ => vstd::pervasive::unreached(),
        }
    }

    /// A stream made of what registering one with the event loop has come to.
    pub fn from_std<E>(registered: Result<C, E>) -> (result: Result<Self, E>)
        ensures
            result == (match registered {
                Ok(stream) => Ok::<Self, E>(Self::spec_from(stream)),
                Err(error) => Err::<Self, E>(error),
            }),
    {
        match registered {
            Ok(stream) => Ok(Self::from(stream)),
            Err(error) => Err(error),
        }
    }

    /// A stream that is connected already.
    pub fn from(stream: C) -> (this: Self)
        ensures
            this == Self::spec_from(stream),
    {
        TcpStream { inner: stream, state: TcpStreamState::Connected }
    }

    /// The stream that the event loop knows.
    pub fn deref(&self) -> (stream: &C)
        ensures
            *stream == self.inner,
    {
        &self.inner
    }

    /// The stream that the event loop knows.
    pub fn deref_mut(&mut self) -> (stream: &mut C)
        ensures
            *stream == old(self).inner,
            *final(self) == (TcpStream { inner: *final(stream), state: old(self).state }),
    {
        &mut self.inner
    }

    /// What a write of `buf` does in the state that the stream is in.
    fn next_action<'b, S, W, O, E>(&self, buf: &'b [u8]) -> (action: WriteAction<'b, S, W, O, E>)
        ensures
            action == self.pending_action::<S, W, O, E>(buf),
    {
        match self.state {
            TcpStreamState::Connected => WriteAction::PollWrite(buf),
            TcpStreamState::FastOpenWrite => WriteAction::PollWriteReady,
        }
    }

    /// Goes on with a write of `buf`, of which `event` is the beginning or what came of the last
    /// action.
    pub fn poll_write<'b, S, W, O, E>(
        &mut self,
        buf: &'b [u8],
        event: WriteEvent<S, C, W, O, E>,
    ) -> (step: WriteStep<'b, S, W, O, E>)
        requires
            old(self).accepts(event),
        ensures
            (*final(self), step) == old(self).spec_poll_write(buf, event),
    {
        let action = match event {
            WriteEvent::Start => self.next_action(buf),
            WriteEvent::WriteReady(Poll::Pending) => WriteAction::Return(Poll::Pending),
            WriteEvent::WriteReady(Poll::Ready(Err(error))) => {
                WriteAction::Return(Poll::Ready(Err(error)))
            },
            WriteEvent::WriteReady(Poll::Ready(Ok(_))) => WriteAction::TrySend(buf),
            WriteEvent::TriedSend { result: Ok(n), .. } => {
                self.state = TcpStreamState::Connected;
                WriteAction::Return(Poll::Ready(Ok(n)))
            },
            WriteEvent::TriedSend { connecting, result: Err(failure) } => {
                match failure.kind {
                    ErrorKind::WouldBlock => {
                        if connecting {
                            // The handshake goes on without data: write once it is over.
                            self.state = TcpStreamState::Connected;
                        }
                        self.next_action(buf)
                    },
                    ErrorKind::Other => WriteAction::Return(Poll::Ready(Err(failure.error))),
                }
            },
            _ => vstd::pervasive::unreached(),
        };
        WriteStep { wake: None, action }
    }

    /// Asks for the local address that this stream is bound to.
    pub fn local_addr<S>(&self) -> (call: SocketCall<'_, S, C>)
        ensures
            call == (SocketCall {
                target: Handle::<S, C>::Stream(&self.inner),
                op: SocketOp::LocalAddr,
            }),
    {
        SocketCall { target: Handle::Stream(&self.inner), op: SocketOp::LocalAddr }
    }

    /// The remote address of this stream, which the stream that the event loop knows is asked for.
    pub fn peer_addr(&self) -> (peer: PeerAddr<'_, C>)
        ensures
            peer == PeerAddr::Ask(&self.inner),
    {
        PeerAddr::Ask(&self.inner)
    }

    /// Asks for the value of the `TCP_NODELAY` option on this socket.
    pub fn nodelay<S>(&self) -> (call: SocketCall<'_, S, C>)
        ensures
            call == (SocketCall {
                target: Handle::<S, C>::Stream(&self.inner),
                op: SocketOp::Nodelay,
            }),
    {
        SocketCall { target: Handle::Stream(&self.inner), op: SocketOp::Nodelay }
    }

    /// Sets the value of the `TCP_NODELAY` option on this socket.
    pub fn set_nodelay<S>(&self, nodelay: bool) -> (call: SocketCall<'_, S, C>)
        ensures
            call == (SocketCall {
                target: Handle::<S, C>::Stream(&self.inner),
                op: SocketOp::SetNodelay(nodelay),
            }),
    {
        SocketCall { target: Handle::Stream(&self.inner), op: SocketOp::SetNodelay(nodelay) }
    }

    /// Asks for the linger duration of this socket (`SO_LINGER`).
    pub fn linger<S>(&self) -> (call: SocketCall<'_, S, C>)
        ensures
            call == (SocketCall {
                target: Handle::<S, C>::Stream(&self.inner),
                op: SocketOp::Linger,
            }),
    {
        SocketCall { target: Handle::Stream(&self.inner), op: SocketOp::Linger }
    }

    /// Sets the linger duration of this socket (`SO_LINGER`).
    pub fn set_linger<S>(&self, dur: Option<Duration>) -> (call: SocketCall<'_, S, C>)
        ensures
            call == (SocketCall {
                target: Handle::<S, C>::Stream(&self.inner),
                op: SocketOp::SetLinger(dur),
            }),
    {
        SocketCall { target: Handle::Stream(&self.inner), op: SocketOp::SetLinger(dur) }
    }

    /// Asks for the value of the `IP_TTL` option for this socket.
    pub fn ttl<S>(&self) -> (call: SocketCall<'_, S, C>)
        ensures
            call == (SocketCall {
                target: Handle::<S, C>::Stream(&self.inner),
                op: SocketOp::Ttl,
            }),
    {
        SocketCall { target: Handle::Stream(&self.inner), op: SocketOp::Ttl }
    }

    /// Sets the value for the `IP_TTL` option on this socket.
    pub fn set_ttl<S>(&self, ttl: u32) -> (call: SocketCall<'_, S, C>)
        ensures
            call == (SocketCall {
                target: Handle::<S, C>::Stream(&self.inner),
                op: SocketOp::SetTtl(ttl),
            }),
    {
        SocketCall { target: Handle::Stream(&self.inner), op: SocketOp::SetTtl(ttl) }
    }

    /// Begins a read: the stream that the event loop knows is polled.
    pub fn poll_read<W>(&self) -> (action: ReadAction<W>)
        ensures
            action == ReadAction::<W>::PollRead,
    {
        ReadAction::PollRead
    }

    /// Begins a flush: the stream that the event loop knows is flushed.
    pub fn poll_flush(&self) -> (action: FlushAction)
        ensures
            action == FlushAction::Delegate,
    {
        FlushAction::Delegate
    }

    /// Begins a shutdown: the stream that the event loop knows is shut down.
    pub fn poll_shutdown(&self) -> (action: FlushAction)
        ensures
            action == FlushAction::Delegate,
    {
        FlushAction::Delegate
    }

    /// The resource whose descriptor is that of the stream.
    pub fn as_raw_fd<S>(&self) -> (handle: Handle<'_, S, C>)
        ensures
            handle == Handle::<S, C>::Stream(&self.inner),
    {
        Handle::Stream(&self.inner)
    }
}

/// Enable `TCP_FASTOPEN`
///
/// `TCP_FASTOPEN` was supported since
/// macosx(10.11), ios(9.0), tvos(9.0), watchos(2.0)
pub fn set_tcp_fastopen<T>(socket: &T) -> (call: OptionCall<'_, T>)
    ensures
        call == (OptionCall { socket, setting: fast_open() }),
{
    OptionCall { socket, setting: OptionSetting { option: SocketOption::FastOpen, value: 1 } }
}

/// Enable `TCP_FASTOPEN_FORCE_ENABLE`
pub fn set_tcp_fastopen_force_enable<T>(socket: &T) -> (call: OptionCall<'_, T>)
    ensures
        call == (OptionCall { socket, setting: fast_open_force_enable() }),
{
    OptionCall {
        socket,
        setting: OptionSetting { option: SocketOption::FastOpenForceEnable, value: 1 },
    }
}

} // verus!
