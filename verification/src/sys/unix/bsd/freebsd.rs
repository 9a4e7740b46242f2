//! Streams on FreeBSD.
//!
//! FreeBSD has known TFO since 12.0: the first `sendto` on a socket with the option `TCP_FASTOPEN`
//! connects it.

use core::time::Duration;

use vstd::prelude::*;

use crate::addr::SocketAddr;
use crate::io::{ErrorCodes, Poll};
use crate::sys::{
    AfterRegister, ConnectAction, ConnectEvent, ConnectStep, ConnectTicket, FlushAction, Handle,
    Handover, OptionCall, OptionSetting, PeerAddr, ReadAction, SocketCall, SocketOp, SocketOption,
    TcpStreamOption, WriteAction, WriteEvent, WriteStep,
};

verus! {

/// How far the connection of a stream is.
#[derive(Clone, Copy, Debug, PartialEq, Eq, Structural)]
pub enum TcpStreamState {
    /// There is a connection.
    Connected,
    /// The first write has to connect, by `sendto`.
    FastOpenConnect,
    /// The connection is being made by an ordinary handshake.
    FastOpenConnecting,
}

/// A `TcpStream` that supports TFO (TCP Fast Open)
#[derive(Debug, PartialEq, Eq)]
pub struct TcpStream<S, C, W> {
    pub state: TcpStreamState,
    pub stream: TcpStreamOption<S, C, W>,
}

/// The setting that makes a listener accept TFO, and a socket connect with it.
pub open spec fn fast_open() -> OptionSetting {
    OptionSetting { option: SocketOption::FastOpen, value: 1 }
}

impl<S, C, W> TcpStream<S, C, W> {
    /// A stream has a socket exactly while its first write has to connect it, unless it lost the
    /// socket in the attempt.
    pub open spec fn wf(&self) -> bool {
        match self.state {
            TcpStreamState::FastOpenConnect => !(self.stream is Connected),
            _ => self.stream is Connected,
        }
    }

    /// The stream has not lost its socket.
    pub open spec fn usable(&self) -> bool {
        &&& self.wf()
        &&& !(self.stream is Empty)
    }

    /// A stream that is connected.
    pub open spec fn spec_from(stream: C) -> Self {
        TcpStream { state: TcpStreamState::Connected, stream: TcpStreamOption::Connected(stream) }
    }

    /// A stream whose first write will connect `socket` to `addr`.
    pub open spec fn deferred(socket: S, addr: SocketAddr) -> Self {
        TcpStream {
            state: TcpStreamState::FastOpenConnect,
            stream: TcpStreamOption::target(socket, addr),
        }
    }

    /// The events that can occur in the connection of a stream.
    pub open spec fn accepts_connect<E>(event: ConnectEvent<S, C, E>) -> bool {
        event is SocketCreated || event is OptionSet
    }

    /// How a socket is connected.
    pub open spec fn spec_connect_with_socket<E>(socket: S, addr: SocketAddr) -> ConnectStep<
        S,
        Self,
        E,
    > {
        ConnectStep::Do(
            ConnectAction::SetOption {
                ticket: ConnectTicket { socket, addr },
                setting: fast_open(),
            },
        )
    }

    /// What follows upon an event in the connection of a stream.
    pub open spec fn spec_resume_connect<E>(event: ConnectEvent<S, C, E>) -> ConnectStep<S, Self, E>
        recommends
            Self::accepts_connect(event),
    {
        match event {
            ConnectEvent::SocketCreated { addr, result } => match result {
                Ok(socket) => Self::spec_connect_with_socket(socket, addr),
                Err(error) => ConnectStep::Return(Err(error)),
            },
            ConnectEvent::OptionSet { ticket, result } => match result {
                Ok(_) => ConnectStep::Return(Ok(Self::deferred(ticket.socket, ticket.addr))),
                Err(failure) => ConnectStep::Return(Err(failure.error)),
            },
            _ => arbitrary(),
        }
    }

    /// What a write does in the state that the stream is in.
    pub open spec fn pending_action<'b, O, E>(self, buf: &'b [u8]) -> WriteAction<'b, S, W, O, E> {
        match self.state {
            TcpStreamState::Connected => WriteAction::PollWrite(buf),
            TcpStreamState::FastOpenConnecting => WriteAction::PollWriteReady,
            TcpStreamState::FastOpenConnect => WriteAction::SendTo {
                addr: self.stream->addr,
                fast_open: false,
                payload: buf,
            },
        }
    }

    /// The events that can occur in a write, given how far the connection is.
    pub open spec fn accepts<O, E>(&self, event: WriteEvent<S, C, W, O, E>) -> bool {
        match event {
            WriteEvent::Start => !(self.stream is Empty),
            WriteEvent::WriteReady(_) => self.state == TcpStreamState::FastOpenConnecting,
            WriteEvent::SocketError { sent, .. } => {
                &&& self.state == TcpStreamState::FastOpenConnecting
                &&& sent is None
            },
            WriteEvent::SentTo(_) => self.stream is Connecting,
            WriteEvent::Registered { handover, .. } => {
                &&& self.stream is Empty
                &&& !(handover.then_do is Overlapped)
            },
            _ => false,
        }
    }

    /// The stream in another state.
    pub open spec fn in_state(self, state: TcpStreamState) -> Self {
        TcpStream { state, ..self }
    }

    /// The stream without its socket, and the action that turns the socket into a registered
    /// stream.
    pub open spec fn hand_over<'b, O, E>(self, then_do: AfterRegister<O>) -> (
        Self,
        WriteStep<'b, S, W, O, E>,
    ) {
        (
            TcpStream { stream: TcpStreamOption::Empty, ..self },
            WriteStep {
                wake: None,
                action: WriteAction::Register {
                    socket: self.stream->socket,
                    handover: Handover { then_do, reader: self.stream->reader },
                },
            },
        )
    }

    /// The stream goes on with the action of its state.
    pub open spec fn go_on<'b, O, E>(self, wake: Option<W>, buf: &'b [u8]) -> (
        Self,
        WriteStep<'b, S, W, O, E>,
    ) {
        (self, WriteStep { wake, action: self.pending_action(buf) })
    }

    /// The write ends with this answer.
    pub open spec fn finish<'b, O, E>(self, wake: Option<W>, answer: Poll<Result<usize, E>>) -> (
        Self,
        WriteStep<'b, S, W, O, E>,
    ) {
        (self, WriteStep { wake, action: WriteAction::Return(answer) })
    }

    /// What a write of `buf` does upon an event: the stream after it, and the next step.
    pub open spec fn spec_poll_write<'b, O, E>(
        self,
        buf: &'b [u8],
        event: WriteEvent<S, C, W, O, E>,
        codes: ErrorCodes,
    ) -> (Self, WriteStep<'b, S, W, O, E>)
        recommends
            self.wf(),
            self.accepts(event),
    {
        match event {
            WriteEvent::Start => self.go_on(None, buf),
            WriteEvent::WriteReady(Poll::Pending) => self.finish(None, Poll::Pending),
            WriteEvent::WriteReady(Poll::Ready(Err(error))) => self.finish(
                None,
                Poll::Ready(Err(error)),
            ),
            WriteEvent::WriteReady(Poll::Ready(Ok(_))) => (
                self,
                WriteStep { wake: None, action: WriteAction::TakeError { sent: None } },
            ),
            WriteEvent::SocketError { result: Ok(None), .. } => self.in_state(
                TcpStreamState::Connected,
            ).go_on(None, buf),
            WriteEvent::SocketError { result: Ok(Some(error)), .. } => self.finish(
                None,
                Poll::Ready(Err(error)),
            ),
            WriteEvent::SocketError { result: Err(error), .. } => self.finish(
                None,
                Poll::Ready(Err(error)),
            ),
            WriteEvent::SentTo(Ok(n)) => self.hand_over(AfterRegister::Sent(n)),
            WriteEvent::SentTo(Err(failure)) => if failure.code == Some(codes.in_progress) {
                self.hand_over(AfterRegister::Handshake)
            } else {
                self.finish(None, Poll::Ready(Err(failure.error)))
            },
            WriteEvent::Registered { result: Err(error), .. } => self.finish(
                None,
                Poll::Ready(Err(error)),
            ),
            WriteEvent::Registered { handover, result: Ok(stream) } => {
                let stream = TcpStreamOption::Connected(stream);
                match handover.then_do {
                    AfterRegister::Sent(n) => TcpStream {
                        state: TcpStreamState::Connected,
                        stream,
                    }.finish(handover.reader, Poll::Ready(Ok(n))),
                    _ => TcpStream { state: TcpStreamState::FastOpenConnecting, stream }.go_on(
                        handover.reader,
                        buf,
                    ),
                }
            },
            _ => arbitrary(),
        }
    }

    /// Begins to connect a new socket to `addr`.
    pub fn connect<E>(addr: SocketAddr) -> (step: ConnectStep<S, Self, E>)
        ensures
            step == ConnectStep::<S, Self, E>::Do(
                ConnectAction::NewSocket { family: addr.spec_family(), addr },
            ),
            step matches ConnectStep::Do(ConnectAction::NewSocket { family, addr: a }) && {
                &&& a == addr
                &&& family is V6 <==> addr is V6
            },
    {
        ConnectStep::Do(ConnectAction::NewSocket { family: addr.family(), addr })
    }

    /// Begins to connect `socket` to `addr`.
    pub fn connect_with_socket<E>(socket: S, addr: SocketAddr) -> (step: ConnectStep<S, Self, E>)
        ensures
            step == Self::spec_connect_with_socket::<E>(socket, addr),
    {
        ConnectStep::Do(
            ConnectAction::SetOption {
                ticket: ConnectTicket { socket, addr },
                setting: OptionSetting { option: SocketOption::FastOpen, value: 1 },
            },
        )
    }

    /// Goes on connecting.
    pub fn resume_connect<E>(event: ConnectEvent<S, C, E>) -> (step: ConnectStep<S, Self, E>)
        requires
            Self::accepts_connect(event),
        ensures
            step == Self::spec_resume_connect(event),
            step matches ConnectStep::Return(Ok(stream)) ==> stream.usable(),
    {
        match event {
            ConnectEvent::SocketCreated { addr, result: Ok(socket) } => {
                Self::connect_with_socket(socket, addr)
            },
            ConnectEvent::SocketCreated { result: Err(error), .. } => {
                ConnectStep::Return(Err(error))
            },
            // Call sendto() in poll_write.
            ConnectEvent::OptionSet { ticket, result: Ok(_) } => {
                ConnectStep::Return(
                    Ok(
                        TcpStream {
                            state: TcpStreamState::FastOpenConnect,
                            stream: TcpStreamOption::Connecting {
                                socket: ticket.socket,
                                addr: ticket.addr,
                                reader: None,
                            },
                        },
                    ),
                )
            },
            ConnectEvent::OptionSet { result: Err(failure), .. } => {
                ConnectStep::Return(Err(failure.error))
            },
            _ => vstd::pervasive::unreached(),
        }
    }

    /// A stream that is connected already.
    pub fn from(stream: C) -> (this: Self)
        ensures
            this == Self::spec_from(stream),
            this.usable(),
    {
        TcpStream { state: TcpStreamState::Connected, stream: TcpStreamOption::Connected(stream) }
    }

    /// What a write of `buf` does in the state that the stream is in.
    fn next_action<'b, O, E>(&self, buf: &'b [u8]) -> (action: WriteAction<'b, S, W, O, E>)
        requires
            self.usable(),
        ensures
            action == self.pending_action::<O, E>(buf),
    {
        match self.state {
            TcpStreamState::Connected => WriteAction::PollWrite(buf),
            TcpStreamState::FastOpenConnecting => WriteAction::PollWriteReady,
            TcpStreamState::FastOpenConnect => match &self.stream {
                TcpStreamOption::Connecting { addr, .. } => WriteAction::SendTo {
                    addr: *addr,
                    fast_open: false,
                    payload: buf,
                },
                _ => vstd::pervasive::unreached(),
            },
        }
    }

    /// Hands the socket out to be registered with the event loop.
    fn register<'b, O, E>(&mut self, then_do: AfterRegister<O>) -> (action: WriteAction<
        'b,
        S,
        W,
        O,
        E,
    >)
        requires
            old(self).stream is Connecting,
        ensures
            (*final(self), WriteStep { wake: None, action }) == old(self).hand_over::<O, E>(
                then_do,
            ),
    {
        match self.stream.take() {
            TcpStreamOption::Connecting { socket, reader, .. } => WriteAction::Register {
                socket,
                handover: Handover { then_do, reader },
            },
            _ => vstd::pervasive::unreached(),
        }
    }

    /// Goes on with a write of `buf`, of which `event` is the beginning or what came of the last
    /// action.
    pub fn poll_write<'b, O, E>(
        &mut self,
        buf: &'b [u8],
        event: WriteEvent<S, C, W, O, E>,
        codes: ErrorCodes,
    ) -> (step: WriteStep<'b, S, W, O, E>)
        requires
            old(self).wf(),
            old(self).accepts(event),
        ensures
            (*final(self), step) == old(self).spec_poll_write(buf, event, codes),
            final(self).wf(),
    {
        let mut wake: Option<W> = None;
        let action = match event {
            WriteEvent::Start => self.next_action(buf),
            WriteEvent::WriteReady(Poll::Pending) => WriteAction::Return(Poll::Pending),
            WriteEvent::WriteReady(Poll::Ready(Err(error))) => {
                WriteAction::Return(Poll::Ready(Err(error)))
            },
            // The handshake is over: see whether it went well.
            WriteEvent::WriteReady(Poll::Ready(Ok(_))) => WriteAction::TakeError { sent: None },
            WriteEvent::SocketError { result: Ok(Some(error)), .. } => {
                WriteAction::Return(Poll::Ready(Err(error)))
            },
            WriteEvent::SocketError { result: Err(error), .. } => {
                WriteAction::Return(Poll::Ready(Err(error)))
            },
            WriteEvent::SocketError { result: Ok(None), .. } => {
                self.state = TcpStreamState::Connected;
                self.next_action(buf)
            },
            // Connected with TFO, with n bytes of data sent.
            WriteEvent::SentTo(Ok(n)) => self.register(AfterRegister::Sent(n)),
            WriteEvent::SentTo(Err(failure)) => {
                if failure.has_code(codes.in_progress) {
                    // There was no cookie for the peer: the request went out without data.
                    self.register(AfterRegister::Handshake)
                } else {
                    WriteAction::Return(Poll::Ready(Err(failure.error)))
                }
            },
            WriteEvent::Registered { result: Err(error), .. } => {
                WriteAction::Return(Poll::Ready(Err(error)))
            },
            WriteEvent::Registered { handover, result: Ok(stream) } => {
                self.stream = TcpStreamOption::Connected(stream);
                wake = handover.reader;
                match handover.then_do {
                    AfterRegister::Sent(n) => {
                        self.state = TcpStreamState::Connected;
                        WriteAction::Return(Poll::Ready(Ok(n)))
                    },
                    _ => {
                        self.state = TcpStreamState::FastOpenConnecting;
                        self.next_action(buf)
                    },
                }
            },
            _ => vstd::pervasive::unreached(),
        };
        WriteStep { wake, action }
    }

    /// Asks for the local address that this stream is bound to.
    pub fn local_addr(&self) -> (call: SocketCall<'_, S, C>)
        requires
            self.usable(),
        ensures
            call == (SocketCall { target: self.stream.spec_handle(), op: SocketOp::LocalAddr }),
    {
        self.stream.call(SocketOp::LocalAddr)
    }

    /// The remote address of this stream: the one to connect to, until there is a connection to
    /// ask.
    pub fn peer_addr(&self) -> (peer: PeerAddr<'_, C>)
        requires
            self.usable(),
        ensures
            peer == self.stream.spec_peer_addr(),
    {
        self.stream.peer_addr()
    }

    /// Asks for the value of the `TCP_NODELAY` option on this socket.
    pub fn nodelay(&self) -> (call: SocketCall<'_, S, C>)
        requires
            self.usable(),
        ensures
            call == (SocketCall { target: self.stream.spec_handle(), op: SocketOp::Nodelay }),
    {
        self.stream.call(SocketOp::Nodelay)
    }

    /// Sets the value of the `TCP_NODELAY` option on this socket.
    pub fn set_nodelay(&self, nodelay: bool) -> (call: SocketCall<'_, S, C>)
        requires
            self.usable(),
        ensures
            call == (SocketCall {
                target: self.stream.spec_handle(),
                op: SocketOp::SetNodelay(nodelay),
            }),
    {
        self.stream.call(SocketOp::SetNodelay(nodelay))
    }

    /// Asks for the linger duration of this socket (`SO_LINGER`).
    pub fn linger(&self) -> (call: SocketCall<'_, S, C>)
        requires
            self.usable(),
        ensures
            call == (SocketCall { target: self.stream.spec_handle(), op: SocketOp::Linger }),
    {
        self.stream.call(SocketOp::Linger)
    }

    /// Sets the linger duration of this socket (`SO_LINGER`).
    pub fn set_linger(&self, dur: Option<Duration>) -> (call: SocketCall<'_, S, C>)
        requires
            self.usable(),
        ensures
            call == (SocketCall {
                target: self.stream.spec_handle(),
                op: SocketOp::SetLinger(dur),
            }),
    {
        self.stream.call(SocketOp::SetLinger(dur))
    }

    /// Asks for the value of the `IP_TTL` option for this socket.
    pub fn ttl(&self) -> (call: SocketCall<'_, S, C>)
        requires
            self.usable(),
        ensures
            call == (SocketCall { target: self.stream.spec_handle(), op: SocketOp::Ttl }),
    {
        self.stream.call(SocketOp::Ttl)
    }

    /// Sets the value for the `IP_TTL` option on this socket.
    pub fn set_ttl(&self, ttl: u32) -> (call: SocketCall<'_, S, C>)
        requires
            self.usable(),
        ensures
            call == (SocketCall { target: self.stream.spec_handle(), op: SocketOp::SetTtl(ttl) }),
    {
        self.stream.call(SocketOp::SetTtl(ttl))
    }

    /// Begins a read by the task of `waker`.
    pub fn poll_read(&mut self, waker: W) -> (action: ReadAction<W>)
        requires
            old(self).usable(),
        ensures
            (final(self).stream, action) == old(self).stream.spec_poll_read(waker),
            final(self).state == old(self).state,
            final(self).usable(),
    {
        self.stream.poll_read(waker)
    }

    /// Begins a flush.
    pub fn poll_flush(&self) -> (action: FlushAction)
        ensures
            action == self.stream.spec_poll_flush(),
    {
        self.stream.poll_flush()
    }

    /// Begins a shutdown.
    pub fn poll_shutdown(&self) -> (action: FlushAction)
        ensures
            action == self.stream.spec_poll_flush(),
    {
        self.stream.poll_flush()
    }

    /// The resource whose descriptor is that of the stream.
    pub fn as_raw_fd(&self) -> (handle: Handle<'_, S, C>)
        requires
            self.usable(),
        ensures
            handle == self.stream.spec_handle(),
    {
        self.stream.handle()
    }
}

/// Enable `TCP_FASTOPEN`
///
/// TCP_FASTOPEN was supported since FreeBSD 12.0
pub fn set_tcp_fastopen<T>(socket: &T) -> (call: OptionCall<'_, T>)
    ensures
        call == (OptionCall { socket, setting: fast_open() }),
{
    OptionCall { socket, setting: OptionSetting { option: SocketOption::FastOpen, value: 1 } }
}

} // verus!
