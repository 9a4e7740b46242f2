//! Streams on Windows.
//!
//! Windows has known TFO since Windows 10: `ConnectEx` on a bound socket with the option
//! `TCP_FASTOPEN` sends data along with the connection request.

use core::time::Duration;

use vstd::prelude::*;

use crate::addr::SocketAddr;
use crate::io::{ErrorKind, Failure, Poll};
use crate::sys::{
    AfterRegister, ConnectAction, ConnectEvent, ConnectStep, ConnectTicket, FlushAction, Handle,
    Handover, OptionCall, OptionSetting, PeerAddr, ReadAction, SocketCall, SocketOp, SocketOption,
    TcpStreamOption, WriteAction, WriteEvent, WriteStep,
};

verus! {

/// `WSAEINVAL`: the socket is bound to an address already.
pub const WSAEINVAL: i32 = 10022;

/// `ERROR_IO_PENDING`: the operation goes on in the background.
pub const ERROR_IO_PENDING: i32 = 997;

/// `WSA_IO_INCOMPLETE`: the operation in the background is not over.
pub const WSA_IO_INCOMPLETE: i32 = 996;

/// `SOCKET_ERROR`: what `setsockopt` returns when it fails.
pub const SOCKET_ERROR: i32 = -1;

/// `TRUE`: what `ConnectEx` and `WSAGetOverlappedResult` return when the operation is complete.
pub const TRUE: i32 = 1;

/// How far the connection of a stream is.
#[derive(Debug, PartialEq, Eq)]
pub enum TcpStreamState<O> {
    /// There is a connection.
    Connected,
    /// The first write has to connect, by `ConnectEx`.
    FastOpenConnect,
    /// The connection is being made in the background.
    FastOpenConnecting(O),
}

/// A `TcpStream` that supports TFO (TCP Fast Open)
#[derive(Debug, PartialEq, Eq)]
pub struct TcpStream<S, C, W, O> {
    pub stream: TcpStreamOption<S, C, W>,
    pub state: TcpStreamState<O>,
}

/// What the result of a `ConnectEx` in the background has come to.
#[derive(Debug, PartialEq, Eq)]
pub enum Overlapped<E> {
    /// It has connected, and sent that many bytes. `SO_UPDATE_CONNECT_CONTEXT` has to be set for the
    /// stream to know its peer; `connect_result` says what the write gets.
    Connected(usize),
    /// It is not over. The stream is not writable before it is.
    Incomplete,
    /// It failed.
    Failed(E),
}

/// The setting that makes a listener accept TFO, and a socket connect with it.
pub open spec fn fast_open() -> OptionSetting {
    OptionSetting { option: SocketOption::FastOpen, value: 1 }
}

/// What the return value of `setsockopt` means. `failure` is the last error of the system.
pub fn completed<E>(ret: i32, failure: Failure<E>) -> (result: Result<(), Failure<E>>)
    ensures
        result == (if ret == SOCKET_ERROR {
            Err::<(), Failure<E>>(failure)
        } else {
            Ok::<(), Failure<E>>(())
        }),
{
    if ret == SOCKET_ERROR {
        Err(failure)
    } else {
        Ok(())
    }
}

/// What the return value of `ConnectEx` or `WSAGetOverlappedResult` means, next to the number of
/// bytes that it says were sent. `failure` is the last error of the system.
pub fn transferred<E>(ret: i32, bytes_sent: u32, failure: Failure<E>) -> (result: Result<
    u32,
    Failure<E>,
>)
    ensures
        result == (if ret == TRUE {
            Ok::<u32, Failure<E>>(bytes_sent)
        } else {
            Err::<u32, Failure<E>>(failure)
        }),
{
    if ret == TRUE {
        Ok(bytes_sent)
    } else {
        Err(failure)
    }
}

/// What the result of the system call means.
pub open spec fn spec_overlapped_result<E>(result: Result<u32, Failure<E>>) -> Overlapped<E> {
    match result {
        Ok(n) => Overlapped::Connected(n as usize),
        Err(failure) => if failure.code == Some(WSA_IO_INCOMPLETE) {
            Overlapped::Incomplete
        } else {
            Overlapped::Failed(failure.error)
        },
    }
}

/// Judges what `WSAGetOverlappedResult` says of a `ConnectEx` in the background: the number of bytes
/// that were sent, or the error.
pub fn overlapped_result<E>(result: Result<u32, Failure<E>>) -> (outcome: Overlapped<E>)
    ensures
        outcome == spec_overlapped_result(result),
{
    match result {
        Ok(n) => Overlapped::Connected(n as usize),
        Err(failure) => if failure.has_code(WSA_IO_INCOMPLETE) {
            Overlapped::Incomplete
        } else {
            Overlapped::Failed(failure.error)
        },
    }
}

/// What fetching the result of a `ConnectEx` in the background is reported as.
pub open spec fn spec_outcome<E>(fetched: Overlapped<E>, would_block: E) -> Result<usize, E> {
    match fetched {
        Overlapped::Connected(n) => Ok(n),
        Overlapped::Incomplete => Err(would_block),
        Overlapped::Failed(error) => Err(error),
    }
}

/// Reports the result of a `ConnectEx` in the background. One that is not over is reported with the
/// error `would_block`, for the event loop to take the stream as not writable.
pub fn outcome<E>(fetched: Overlapped<E>, would_block: E) -> (reported: Result<usize, E>)
    ensures
        reported == spec_outcome(fetched, would_block),
{
    match fetched {
        Overlapped::Connected(n) => Ok(n),
        Overlapped::Incomplete => Err(would_block),
        Overlapped::Failed(error) => Err(error),
    }
}

/// What a `ConnectEx` that has sent `n` bytes gives, given what setting `SO_UPDATE_CONNECT_CONTEXT` has
/// come to.
pub open spec fn spec_connect_result<E>(n: usize, context: Result<(), E>) -> Result<usize, E> {
    match context {
        Ok(_) => Ok(n),
        Err(error) => Err(error),
    }
}

/// What a `ConnectEx` in the background that has sent `n` bytes gives to the write that waits for it:
/// the number of bytes, unless setting `SO_UPDATE_CONNECT_CONTEXT` has failed.
pub fn connect_result<E>(n: usize, context: Result<(), E>) -> (result: Result<usize, E>)
    ensures
        result == spec_connect_result(n, context),
{
    match context {
        Ok(_) => Ok(n),
        Err(error) => Err(error),
    }
}

impl<S, C, W, O> TcpStream<S, C, W, O> {
    /// A stream has a socket exactly while its first write has to connect it, unless it lost the
    /// socket in the attempt.
    pub open spec fn wf(&self) -> bool {
        match self.state {
            TcpStreamState::FastOpenConnect => !(self.stream is Connected),
            _ => self.stream is Connected,
        }
    }

    /// The stream has not lost its socket.
    pub open spec fn usable(&self) -> bool {
        &&& self.wf()
        &&& !(self.stream is Empty)
    }

    /// A stream that is connected.
    pub open spec fn spec_from(stream: C) -> Self {
        TcpStream { stream: TcpStreamOption::Connected(stream), state: TcpStreamState::Connected }
    }

    /// A stream whose first write will connect `socket` to `addr`.
    pub open spec fn deferred(socket: S, addr: SocketAddr) -> Self {
        TcpStream {
            stream: TcpStreamOption::target(socket, addr),
            state: TcpStreamState::FastOpenConnect,
        }
    }

    /// The events that can occur in the connection of a stream.
    pub open spec fn accepts_connect<E>(event: ConnectEvent<S, C, E>) -> bool {
        event is SocketCreated || event is OptionSet || event is Bound
    }

    /// How a socket is connected.
    pub open spec fn spec_connect_with_socket<E>(socket: S, addr: SocketAddr) -> ConnectStep<
        S,
        Self,
        E,
    > {
        ConnectStep::Do(
            ConnectAction::SetOption {
                ticket: ConnectTicket { socket, addr },
                setting: fast_open(),
            },
        )
    }

    /// What follows upon an event in the connection of a stream. It is bound to a local address
    /// first, unless the caller has bound it.
    pub open spec fn spec_resume_connect<E>(event: ConnectEvent<S, C, E>) -> ConnectStep<S, Self, E>
        recommends
            Self::accepts_connect(event),
    {
        match event {
            ConnectEvent::SocketCreated { addr, result } => match result {
                Ok(socket) => Self::spec_connect_with_socket(socket, addr),
                Err(error) => ConnectStep::Return(Err(error)),
            },
            ConnectEvent::OptionSet { ticket, result } => match result {
                Ok(_) => ConnectStep::Do(
                    ConnectAction::Bind {
                        ticket,
                        local: SocketAddr::spec_unspecified(ticket.addr.spec_family()),
                    },
                ),
                Err(failure) => ConnectStep::Return(Err(failure.error)),
            },
            ConnectEvent::Bound { ticket, result } => match result {
                Err(failure) if failure.code != Some(WSAEINVAL) => ConnectStep::Return(
                    Err(failure.error),
                ),
                _ => ConnectStep::Return(Ok(Self::deferred(ticket.socket, ticket.addr))),
            },
            _ => arbitrary(),
        }
    }

    /// What a write does in the state that the stream is in.
    pub open spec fn pending_action<'b, E>(self, buf: &'b [u8]) -> WriteAction<'b, S, W, O, E> {
        match self.state {
            TcpStreamState::Connected => WriteAction::PollWrite(buf),
            TcpStreamState::FastOpenConnect => WriteAction::ConnectEx {
                addr: self.stream->addr,
                payload: buf,
            },
            TcpStreamState::FastOpenConnecting(_) => WriteAction::PollWriteReady,
        }
    }

    /// The events that can occur in a write, given how far the connection is.
    pub open spec fn accepts<E>(&self, event: WriteEvent<S, C, W, O, E>) -> bool {
        match event {
            WriteEvent::Start => !(self.stream is Empty),
            WriteEvent::WriteReady(_) => self.state is FastOpenConnecting,
            WriteEvent::ConnectExReturned { .. } => self.stream is Connecting,
            WriteEvent::ContextUpdated { handover, .. } => {
                &&& self.stream is Empty
                &&& handover.then_do is Sent
            },
            WriteEvent::Registered { handover, .. } => {
                &&& self.stream is Empty
                &&& !(handover.then_do is Handshake)
            },
            WriteEvent::ConnectResult(_) => self.state is FastOpenConnecting,
            WriteEvent::SocketError { sent, .. } => {
                &&& self.state is FastOpenConnecting
                &&& sent is Some
            },
            _ => false,
        }
    }

    /// The stream with a connection.
    pub open spec fn in_connection(self) -> Self {
        TcpStream { state: TcpStreamState::Connected, ..self }
    }

    /// The stream without its socket.
    pub open spec fn emptied(self) -> Self {
        TcpStream { stream: TcpStreamOption::Empty, ..self }
    }

    /// What is taken out of the stream together with its socket.
    pub open spec fn handover(self, then_do: AfterRegister<O>) -> Handover<W, O> {
        Handover { then_do, reader: self.stream->reader }
    }

    /// The stream goes on with the action of its state.
    pub open spec fn go_on<'b, E>(self, wake: Option<W>, buf: &'b [u8]) -> (
        Self,
        WriteStep<'b, S, W, O, E>,
    ) {
        (self, WriteStep { wake, action: self.pending_action(buf) })
    }

    /// The write goes on with this action.
    pub open spec fn perform<'b, E>(self, action: WriteAction<'b, S, W, O, E>) -> (
        Self,
        WriteStep<'b, S, W, O, E>,
    ) {
        (self, WriteStep { wake: None, action })
    }

    /// The write ends with this answer.
    pub open spec fn finish<'b, E>(self, wake: Option<W>, answer: Poll<Result<usize, E>>) -> (
        Self,
        WriteStep<'b, S, W, O, E>,
    ) {
        (self, WriteStep { wake, action: WriteAction::Return(answer) })
    }

    /// What a write of `buf` does upon an event: the stream after it, and the next step.
    pub open spec fn spec_poll_write<'b, E>(
        self,
        buf: &'b [u8],
        event: WriteEvent<S, C, W, O, E>,
    ) -> (Self, WriteStep<'b, S, W, O, E>)
        recommends
            self.wf(),
            self.accepts(event),
    {
        match event {
            WriteEvent::Start => self.go_on(None, buf),
            WriteEvent::ConnectExReturned { result: Ok(n), .. } => self.emptied().perform(
                WriteAction::UpdateContext {
                    socket: self.stream->socket,
                    handover: self.handover(AfterRegister::Sent(n as usize)),
                },
            ),
            WriteEvent::ConnectExReturned { overlapped, result: Err(failure) } => if failure.code
                == Some(ERROR_IO_PENDING) {
                self.emptied().perform(
                    WriteAction::Register {
                        socket: self.stream->socket,
                        handover: self.handover(AfterRegister::Overlapped(overlapped)),
                    },
                )
            } else {
                self.finish(None, Poll::Ready(Err(failure.error)))
            },
            WriteEvent::ContextUpdated { result: Err(error), .. } => self.finish(
                None,
                Poll::Ready(Err(error)),
            ),
            WriteEvent::ContextUpdated { socket, handover, result: Ok(_) } => self.perform(
                WriteAction::Register { socket, handover },
            ),
            WriteEvent::Registered { result: Err(error), .. } => self.finish(
                None,
                Poll::Ready(Err(error)),
            ),
            WriteEvent::Registered { handover, result: Ok(stream) } => {
                let stream = TcpStreamOption::Connected(stream);
                match handover.then_do {
                    AfterRegister::Sent(n) => TcpStream {
                        stream,
                        state: TcpStreamState::Connected,
                    }.finish(handover.reader, Poll::Ready(Ok(n))),
                    AfterRegister::Overlapped(overlapped) => TcpStream {
                        stream,
                        state: TcpStreamState::FastOpenConnecting(overlapped),
                    }.go_on(handover.reader, buf),
                    AfterRegister::Handshake => arbitrary(),
                }
            },
            WriteEvent::WriteReady(Poll::Pending) => self.finish(None, Poll::Pending),
            WriteEvent::WriteReady(Poll::Ready(Err(error))) => self.finish(
                None,
                Poll::Ready(Err(error)),
            ),
            WriteEvent::WriteReady(Poll::Ready(Ok(_))) => self.perform(
                WriteAction::TryConnectResult,
            ),
            WriteEvent::ConnectResult(Ok(n)) => self.perform(
                WriteAction::TakeError { sent: Some(n) },
            ),
            WriteEvent::ConnectResult(Err(failure)) => if failure.kind == ErrorKind::WouldBlock {
                self.go_on(None, buf)
            } else {
                self.finish(None, Poll::Ready(Err(failure.error)))
            },
            WriteEvent::SocketError { result: Err(error), .. } => self.finish(
                None,
                Poll::Ready(Err(error)),
            ),
            WriteEvent::SocketError { sent: Some(n), result: Ok(_) } => self.in_connection().finish(
                None,
                Poll::Ready(Ok(n)),
            ),
            _ => arbitrary(),
        }
    }

    /// Begins to connect a new socket to `addr`.
    pub fn connect<E>(addr: SocketAddr) -> (step: ConnectStep<S, Self, E>)
        ensures
            step == ConnectStep::<S, Self, E>::Do(
                ConnectAction::NewSocket { family: addr.spec_family(), addr },
            ),
            step matches ConnectStep::Do(ConnectAction::NewSocket { family, addr: a }) && {
                &&& a == addr
                &&& family is V6 <==> addr is V6
            },
    {
        ConnectStep::Do(ConnectAction::NewSocket { family: addr.family(), addr })
    }

    /// Begins to connect `socket` to `addr`.
    pub fn connect_with_socket<E>(socket: S, addr: SocketAddr) -> (step: ConnectStep<S, Self, E>)
        ensures
            step == Self::spec_connect_with_socket::<E>(socket, addr),
    {
        ConnectStep::Do(
            ConnectAction::SetOption {
                ticket: ConnectTicket { socket, addr },
                setting: OptionSetting { option: SocketOption::FastOpen, value: 1 },
            },
        )
    }

    /// Goes on connecting.
    pub fn resume_connect<E>(event: ConnectEvent<S, C, E>) -> (step: ConnectStep<S, Self, E>)
        requires
            Self::accepts_connect(event),
        ensures
            step == Self::spec_resume_connect(event),
            step matches ConnectStep::Return(Ok(stream)) ==> stream.usable(),
    {
        match event {
            ConnectEvent::SocketCreated { addr, result: Ok(socket) } => {
                Self::connect_with_socket(socket, addr)
            },
            ConnectEvent::SocketCreated { result: Err(error), .. } => {
                ConnectStep::Return(Err(error))
            },
            ConnectEvent::OptionSet { ticket, result: Ok(_) } => {
                // A socket has to be bound for ConnectEx.
                let local = SocketAddr::unspecified(ticket.addr.family());
                ConnectStep::Do(ConnectAction::Bind { ticket, local })
            },
            ConnectEvent::OptionSet { result: Err(failure), .. } => {
                ConnectStep::Return(Err(failure.error))
            },
            ConnectEvent::Bound { ticket, result } => {
                if let Err(failure) = result {
                    // It is fine for the socket to be bound already.
                    if !failure.has_code(WSAEINVAL) {
                        return ConnectStep::Return(Err(failure.error));
                    }
                }
                ConnectStep::Return(
                    Ok(
                        TcpStream {
                            stream: TcpStreamOption::Connecting {
                                socket: ticket.socket,
                                addr: ticket.addr,
                                reader: None,
                            },
                            state: TcpStreamState::FastOpenConnect,
                        },
                    ),
                )
            },
            _ => vstd::pervasive::unreached(),
        }
    }

    /// A stream that is connected already.
    pub fn from(stream: C) -> (this: Self)
        ensures
            this == Self::spec_from(stream),
            this.usable(),
    {
        TcpStream { stream: TcpStreamOption::Connected(stream), state: TcpStreamState::Connected }
    }

    /// What a write of `buf` does in the state that the stream is in.
    fn next_action<'b, E>(&self, buf: &'b [u8]) -> (action: WriteAction<'b, S, W, O, E>)
        requires
            self.usable(),
        ensures
            action == self.pending_action::<E>(buf),
    {
        match &self.state {
            TcpStreamState::Connected => WriteAction::PollWrite(buf),
            TcpStreamState::FastOpenConnecting(_) => WriteAction::PollWriteReady,
            TcpStreamState::FastOpenConnect => match &self.stream {
                TcpStreamOption::Connecting { addr, .. } => WriteAction::ConnectEx {
                    addr: *addr,
                    payload: buf,
                },
                _ => vstd::pervasive::unreached(),
            },
        }
    }

    /// Takes the socket out, with what has to be remembered of it.
    fn hand_over(&mut self, then_do: AfterRegister<O>) -> (taken: (S, Handover<W, O>))
        requires
            old(self).stream is Connecting,
        ensures
            taken == (old(self).stream->socket, old(self).handover(then_do)),
            *final(self) == old(self).emptied(),
    {
        match self.stream.take() {
            TcpStreamOption::Connecting { socket, reader, .. } => {
                (socket, Handover { then_do, reader })
            },
            _ => vstd::pervasive::unreached(),
        }
    }

    /// Goes on with a write of `buf`, of which `event` is the beginning or what came of the last
    /// action.
    pub fn poll_write<'b, E>(&mut self, buf: &'b [u8], event: WriteEvent<S, C, W, O, E>) -> (step:
        WriteStep<'b, S, W, O, E>)
        requires
            old(self).wf(),
            old(self).accepts(event),
        ensures
            (*final(self), step) == old(self).spec_poll_write(buf, event),
            final(self).wf(),
    {
        let mut wake: Option<W> = None;
        let action = match event {
            WriteEvent::Start => self.next_action(buf),
            // Connected, with n bytes of data sent.
            WriteEvent::ConnectExReturned { result: Ok(n), .. } => {
                let (socket, handover) = self.hand_over(AfterRegister::Sent(n as usize));
                WriteAction::UpdateContext { socket, handover }
            },
            WriteEvent::ConnectExReturned { overlapped, result: Err(failure) } => {
                if failure.has_code(ERROR_IO_PENDING) {
                    // Check later, in FastOpenConnecting.
                    let (socket, handover) = self.hand_over(AfterRegister::Overlapped(overlapped));
                    WriteAction::Register { socket, handover }
                } else {
                    WriteAction::Return(Poll::Ready(Err(failure.error)))
                }
            },
            WriteEvent::ContextUpdated { result: Err(error), .. } => {
                WriteAction::Return(Poll::Ready(Err(error)))
            },
            WriteEvent::ContextUpdated { socket, handover, result: Ok(_) } => {
                WriteAction::Register { socket, handover }
            },
            WriteEvent::Registered { result: Err(error), .. } => {
                WriteAction::Return(Poll::Ready(Err(error)))
            },
            WriteEvent::Registered { handover, result: Ok(stream) } => {
                self.stream = TcpStreamOption::Connected(stream);
                wake = handover.reader;
                match handover.then_do {
                    AfterRegister::Sent(n) => {
                        self.state = TcpStreamState::Connected;
                        WriteAction::Return(Poll::Ready(Ok(n)))
                    },
                    AfterRegister::Overlapped(overlapped) => {
                        self.state = TcpStreamState::FastOpenConnecting(overlapped);
                        self.next_action(buf)
                    },
                    AfterRegister::Handshake => vstd::pervasive::unreached(),
                }
            },
            WriteEvent::WriteReady(Poll::Pending) => WriteAction::Return(Poll::Pending),
            WriteEvent::WriteReady(Poll::Ready(Err(error))) => {
                WriteAction::Return(Poll::Ready(Err(error)))
            },
            WriteEvent::WriteReady(Poll::Ready(Ok(_))) => WriteAction::TryConnectResult,
            WriteEvent::ConnectResult(Ok(n)) => WriteAction::TakeError { sent: Some(n) },
            WriteEvent::ConnectResult(Err(failure)) => {
                match failure.kind {
                    // Wait again for the stream to be writable.
                    ErrorKind::WouldBlock => self.next_action(buf),
                    ErrorKind::Other => WriteAction::Return(Poll::Ready(Err(failure.error))),
                }
            },
            WriteEvent::SocketError { result: Err(error), .. } => {
                WriteAction::Return(Poll::Ready(Err(error)))
            },
            WriteEvent::SocketError { sent: Some(n), result: Ok(_) } => {
                self.state = TcpStreamState::Connected;
                WriteAction::Return(Poll::Ready(Ok(n)))
            },
            _ => vstd::pervasive::unreached(),
        };
        WriteStep { wake, action }
    }

    /// Asks for the local address that this stream is bound to.
    pub fn local_addr(&self) -> (call: SocketCall<'_, S, C>)
        requires
            self.usable(),
        ensures
            call == (SocketCall { target: self.stream.spec_handle(), op: SocketOp::LocalAddr }),
    {
        self.stream.call(SocketOp::LocalAddr)
    }

    /// The remote address of this stream: the one to connect to, until there is a connection to
    /// ask.
    pub fn peer_addr(&self) -> (peer: PeerAddr<'_, C>)
        requires
            self.usable(),
        ensures
            peer == self.stream.spec_peer_addr(),
    {
        self.stream.peer_addr()
    }

    /// Asks for the value of the `TCP_NODELAY` option on this socket.
    pub fn nodelay(&self) -> (call: SocketCall<'_, S, C>)
        requires
            self.usable(),
        ensures
            call == (SocketCall { target: self.stream.spec_handle(), op: SocketOp::Nodelay }),
    {
        self.stream.call(SocketOp::Nodelay)
    }

    /// Sets the value of the `TCP_NODELAY` option on this socket.
    pub fn set_nodelay(&self, nodelay: bool) -> (call: SocketCall<'_, S, C>)
        requires
            self.usable(),
        ensures
            call == (SocketCall {
                target: self.stream.spec_handle(),
                op: SocketOp::SetNodelay(nodelay),
            }),
    {
        self.stream.call(SocketOp::SetNodelay(nodelay))
    }

    /// Asks for the linger duration of this socket (`SO_LINGER`).
    pub fn linger(&self) -> (call: SocketCall<'_, S, C>)
        requires
            self.usable(),
        ensures
            call == (SocketCall { target: self.stream.spec_handle(), op: SocketOp::Linger }),
    {
        self.stream.call(SocketOp::Linger)
    }

    /// Sets the linger duration of this socket (`SO_LINGER`).
    pub fn set_linger(&self, dur: Option<Duration>) -> (call: SocketCall<'_, S, C>)
        requires
            self.usable(),
        ensures
            call == (SocketCall {
                target: self.stream.spec_handle(),
                op: SocketOp::SetLinger(dur),
            }),
    {
        self.stream.call(SocketOp::SetLinger(dur))
    }

    /// Asks for the value of the `IP_TTL` option for this socket.
    pub fn ttl(&self) -> (call: SocketCall<'_, S, C>)
        requires
            self.usable(),
        ensures
            call == (SocketCall { target: self.stream.spec_handle(), op: SocketOp::Ttl }),
    {
        self.stream.call(SocketOp::Ttl)
    }

    /// Sets the value for the `IP_TTL` option on this socket.
    pub fn set_ttl(&self, ttl: u32) -> (call: SocketCall<'_, S, C>)
        requires
            self.usable(),
        ensures
            call == (SocketCall { target: self.stream.spec_handle(), op: SocketOp::SetTtl(ttl) }),
    {
        self.stream.call(SocketOp::SetTtl(ttl))
    }

    /// Begins a read by the task of `waker`.
    pub fn poll_read(&mut self, waker: W) -> (action: ReadAction<W>)
        requires
            old(self).usable(),
        ensures
            (final(self).stream, action) == old(self).stream.spec_poll_read(waker),
            final(self).state == old(self).state,
            final(self).usable(),
    {
        self.stream.poll_read(waker)
    }

    /// Begins a flush.
    pub fn poll_flush(&self) -> (action: FlushAction)
        ensures
            action == self.stream.spec_poll_flush(),
    {
        self.stream.poll_flush()
    }

    /// Begins a shutdown.
    pub fn poll_shutdown(&self) -> (action: FlushAction)
        ensures
            action == self.stream.spec_poll_flush(),
    {
        self.stream.poll_flush()
    }

    /// The resource whose socket is that of the stream.
    pub fn as_raw_socket(&self) -> (handle: Handle<'_, S, C>)
        requires
            self.usable(),
        ensures
            handle == self.stream.spec_handle(),
    {
        self.stream.handle()
    }
}

/// Enable `TCP_FASTOPEN`
///
/// TCP_FASTOPEN is supported since Windows 10
pub fn set_tcp_fastopen<T>(socket: &T) -> (call: OptionCall<'_, T>)
    ensures
        call == (OptionCall { socket, setting: fast_open() }),
{
    OptionCall { socket, setting: OptionSetting { option: SocketOption::FastOpen, value: 1 } }
}

} // verus!
