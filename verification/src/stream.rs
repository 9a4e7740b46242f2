//! TFO stream

use core::time::Duration;

use vstd::prelude::*;

use crate::addr::SocketAddr;
use crate::io::ErrorCodes;
use crate::sys::platform::{Platform, SysTcpStream};
use crate::sys::unix::bsd::{freebsd, macos};
use crate::sys::unix::linux;
use crate::sys::{
    windows, ConnectAction, ConnectEvent, ConnectStep, FlushAction, Handle, PeerAddr, ReadAction,
    SocketCall, SocketOp, TcpStreamOption, WriteEvent, WriteStep,
};

verus! {

/// TCP stream connecting remote server with TFO
#[derive(Debug, PartialEq, Eq)]
pub struct TfoStream<S, C, W, O> {
    pub inner: SysTcpStream<S, C, W, O>,
}

impl<S, C, W, O> TfoStream<S, C, W, O> {
    /// The state of the stream and its resource go together.
    pub open spec fn wf(&self) -> bool {
        self.inner.wf()
    }

    /// The stream has not lost its socket.
    pub open spec fn usable(&self) -> bool {
        self.inner.usable()
    }

    /// A step in the connection of a stream, with the stream that it may end with made one of this
    /// type.
    pub open spec fn lift<T, E>(
        step: ConnectStep<S, T, E>,
        wrap: spec_fn(T) -> SysTcpStream<S, C, W, O>,
    ) -> ConnectStep<S, Self, E> {
        match step {
            ConnectStep::Do(action) => ConnectStep::Do(action),
            ConnectStep::Return(Ok(stream)) => ConnectStep::Return(
                Ok(TfoStream { inner: wrap(stream) }),
            ),
            ConnectStep::Return(Err(error)) => ConnectStep::Return(Err(error)),
        }
    }

    /// How a socket is connected on `platform`.
    pub open spec fn spec_connect_with_socket<E>(
        platform: Platform,
        socket: S,
        addr: SocketAddr,
        support: bool,
    ) -> ConnectStep<S, Self, E> {
        match platform {
            Platform::Linux => Self::lift(
                linux::TcpStream::spec_connect_with_socket(socket, addr, support),
                |stream| SysTcpStream::Linux(stream),
            ),
            Platform::FreeBsd => Self::lift(
                freebsd::TcpStream::spec_connect_with_socket(socket, addr),
                |stream| SysTcpStream::FreeBsd(stream),
            ),
            Platform::Macos => Self::lift(
                macos::TcpStream::spec_connect_with_socket(socket, addr),
                |stream| SysTcpStream::Macos(stream),
            ),
            Platform::Windows => Self::lift(
                windows::TcpStream::spec_connect_with_socket(socket, addr),
                |stream| SysTcpStream::Windows(stream),
            ),
        }
    }

    /// What follows upon an event in the connection of a stream on `platform`, and what is believed
    /// of `TCP_FASTOPEN_CONNECT` after it.
    pub open spec fn spec_resume_connect<E>(
        platform: Platform,
        event: ConnectEvent<S, C, E>,
        codes: ErrorCodes,
        support: bool,
    ) -> (ConnectStep<S, Self, E>, bool)
        recommends
            SysTcpStream::<S, C, W, O>::accepts_connect(platform, event),
    {
        match platform {
            Platform::Linux => {
                let (step, support) = linux::TcpStream::spec_resume_connect(event, codes, support);
                (Self::lift(step, |stream| SysTcpStream::Linux(stream)), support)
            },
            Platform::FreeBsd => (
                Self::lift(
                    freebsd::TcpStream::spec_resume_connect(event),
                    |stream| SysTcpStream::FreeBsd(stream),
                ),
                support,
            ),
            Platform::Macos => (
                Self::lift(
                    macos::TcpStream::spec_resume_connect(event),
                    |stream| SysTcpStream::Macos(stream),
                ),
                support,
            ),
            Platform::Windows => (
                Self::lift(
                    windows::TcpStream::spec_resume_connect(event),
                    |stream| SysTcpStream::Windows(stream),
                ),
                support,
            ),
        }
    }

    /// Makes a step of a stream on Linux one of this type.
    fn lift_linux<E>(step: ConnectStep<S, linux::TcpStream<S, C, W>, E>) -> (lifted: ConnectStep<
        S,
        Self,
        E,
    >)
        ensures
            lifted == Self::lift(step, |stream| SysTcpStream::Linux(stream)),
    {
        match step {
            ConnectStep::Do(action) => ConnectStep::Do(action),
            ConnectStep::Return(Ok(stream)) => ConnectStep::Return(
                Ok(TfoStream { inner: SysTcpStream::Linux(stream) }),
            ),
            ConnectStep::Return(Err(error)) => ConnectStep::Return(Err(error)),
        }
    }

    /// Makes a step of a stream on FreeBSD one of this type.
    fn lift_freebsd<E>(step: ConnectStep<S, freebsd::TcpStream<S, C, W>, E>) -> (lifted: ConnectStep<
        S,
        Self,
        E,
    >)
        ensures
            lifted == Self::lift(step, |stream| SysTcpStream::FreeBsd(stream)),
    {
        match step {
            ConnectStep::Do(action) => ConnectStep::Do(action),
            ConnectStep::Return(Ok(stream)) => ConnectStep::Return(
                Ok(TfoStream { inner: SysTcpStream::FreeBsd(stream) }),
            ),
            ConnectStep::Return(Err(error)) => ConnectStep::Return(Err(error)),
        }
    }

    /// Makes a step of a stream on macOS one of this type.
    fn lift_macos<E>(step: ConnectStep<S, macos::TcpStream<C>, E>) -> (lifted: ConnectStep<
        S,
        Self,
        E,
    >)
        ensures
            lifted == Self::lift(step, |stream| SysTcpStream::Macos(stream)),
    {
        match step {
            ConnectStep::Do(action) => ConnectStep::Do(action),
            ConnectStep::Return(Ok(stream)) => ConnectStep::Return(
                Ok(TfoStream { inner: SysTcpStream::Macos(stream) }),
            ),
            ConnectStep::Return(Err(error)) => ConnectStep::Return(Err(error)),
        }
    }

    /// Makes a step of a stream on Windows one of this type.
    fn lift_windows<E>(step: ConnectStep<S, windows::TcpStream<S, C, W, O>, E>) -> (lifted: ConnectStep<
        S,
        Self,
        E,
    >)
        ensures
            lifted == Self::lift(step, |stream| SysTcpStream::Windows(stream)),
    {
        match step {
            ConnectStep::Do(action) => ConnectStep::Do(action),
            ConnectStep::Return(Ok(stream)) => ConnectStep::Return(
                Ok(TfoStream { inner: SysTcpStream::Windows(stream) }),
            ),
            ConnectStep::Return(Err(error)) => ConnectStep::Return(Err(error)),
        }
    }

    /// Connect to `addr` with TCP Fast Open
    ///
    /// `connect` errors may be returned from write operations like `poll_write` because
    /// if TFO cookie is available, the actual `SYN` packet will be sent with data when
    /// calling `poll_write`.
    ///
    /// On some platforms, this is a no-op method only recording the target address.
    pub fn connect<E>(platform: Platform, addr: SocketAddr) -> (step: ConnectStep<S, Self, E>)
        ensures
            step == ConnectStep::<S, Self, E>::Do(
                ConnectAction::NewSocket { family: addr.spec_family(), addr },
            ),
            step matches ConnectStep::Do(ConnectAction::NewSocket { family, addr: a }) && {
                &&& a == addr
                &&& family is V6 <==> addr is V6
            },
    {
        match platform {
            Platform::Linux => Self::lift_linux(linux::TcpStream::connect(addr)),
            Platform::FreeBsd => Self::lift_freebsd(freebsd::TcpStream::connect(addr)),
            Platform::Macos => Self::lift_macos(macos::TcpStream::connect(addr)),
            Platform::Windows => Self::lift_windows(windows::TcpStream::connect(addr)),
        }
    }

    /// Connect to `addr` with half constructed `TcpSocket`
    ///
    /// This is for customizing the whole process of `connect`, users could set any flags
    /// before performing the actual TFO `connect`.
    ///
    /// `support` tells whether the system is believed to know `TCP_FASTOPEN_CONNECT`. It matters on
    /// Linux only.
    pub fn connect_with_socket<E>(
        platform: Platform,
        socket: S,
        addr: SocketAddr,
        support: bool,
    ) -> (step: ConnectStep<S, Self, E>)
        ensures
            step == Self::spec_connect_with_socket::<E>(platform, socket, addr, support),
            step matches ConnectStep::Return(Ok(stream)) ==> {
                &&& stream.usable()
                &&& stream.inner.platform() == platform
            },
    {
        match platform {
            Platform::Linux => Self::lift_linux(
                linux::TcpStream::connect_with_socket(socket, addr, support),
            ),
            Platform::FreeBsd => Self::lift_freebsd(
                freebsd::TcpStream::connect_with_socket(socket, addr),
            ),
            Platform::Macos => Self::lift_macos(macos::TcpStream::connect_with_socket(socket, addr)),
            Platform::Windows => Self::lift_windows(
                windows::TcpStream::connect_with_socket(socket, addr),
            ),
        }
    }

    /// Goes on connecting. A system that turns out not to know `TCP_FASTOPEN_CONNECT` takes
    /// `support` away.
    pub fn resume_connect<E>(
        platform: Platform,
        event: ConnectEvent<S, C, E>,
        codes: ErrorCodes,
        support: &mut bool,
    ) -> (step: ConnectStep<S, Self, E>)
        requires
            SysTcpStream::<S, C, W, O>::accepts_connect(platform, event),
        ensures
            (step, *final(support)) == Self::spec_resume_connect(
                platform,
                event,
                codes,
                *old(support),
            ),
            step matches ConnectStep::Return(Ok(stream)) ==> {
                &&& stream.usable()
                &&& stream.inner.platform() == platform
            },
    {
        match platform {
            Platform::Linux => Self::lift_linux(
                linux::TcpStream::resume_connect(event, codes, support),
            ),
            Platform::FreeBsd => Self::lift_freebsd(freebsd::TcpStream::resume_connect(event)),
            Platform::Macos => Self::lift_macos(macos::TcpStream::resume_connect(event)),
            Platform::Windows => Self::lift_windows(windows::TcpStream::resume_connect(event)),
        }
    }

    /// A stream made of one that is connected already.
    pub fn from(platform: Platform, stream: C) -> (this: Self)
        ensures
            this.inner == SysTcpStream::<S, C, W, O>::spec_from(platform, stream),
            this.usable(),
    {
        let inner = match platform {
            Platform::Linux => SysTcpStream::Linux(linux::TcpStream::from(stream)),
            Platform::FreeBsd => SysTcpStream::FreeBsd(freebsd::TcpStream::from(stream)),
            Platform::Macos => SysTcpStream::Macos(macos::TcpStream::from(stream)),
            Platform::Windows => SysTcpStream::Windows(windows::TcpStream::from(stream)),
        };
        TfoStream { inner }
    }

    /// Whether the stream has not lost its socket. One whose socket the event loop refused in the
    /// middle of the first write is lost, and so is one on Windows whose context could not be set; none
    /// of the operations on it makes sense any more.
    pub fn is_usable(&self) -> (usable: bool)
        ensures
            usable == !(self.inner.resource() is Empty),
            self.wf() ==> usable == self.usable(),
    {
        match &self.inner {
            SysTcpStream::Linux(stream) => !matches!(stream.stream, TcpStreamOption::Empty),
            SysTcpStream::FreeBsd(stream) => !matches!(stream.stream, TcpStreamOption::Empty),
            SysTcpStream::Macos(_) => true,
            SysTcpStream::Windows(stream) => !matches!(stream.stream, TcpStreamOption::Empty),
        }
    }

    /// The connected stream that the event loop knows.
    pub fn connected(&mut self) -> (stream: &mut C)
        requires
            old(self).inner.resource() is Connected,
        ensures
            *stream == old(self).inner.resource()->Connected_0,
            final(self).inner == old(self).inner.with_resource(
                TcpStreamOption::Connected(*final(stream)),
            ),
    {
        match &mut self.inner {
            SysTcpStream::Linux(stream) => stream.stream.connected(),
            SysTcpStream::FreeBsd(stream) => stream.stream.connected(),
            SysTcpStream::Macos(stream) => stream.deref_mut(),
            SysTcpStream::Windows(stream) => stream.stream.connected(),
        }
    }

    /// Asks for the local address that this stream is bound to.
    pub fn local_addr(&self) -> (call: SocketCall<'_, S, C>)
        requires
            self.usable(),
        ensures
            call == (SocketCall {
                target: self.inner.resource().spec_handle(),
                op: SocketOp::LocalAddr,
            }),
    {
        match &self.inner {
            SysTcpStream::Linux(stream) => stream.local_addr(),
            SysTcpStream::FreeBsd(stream) => stream.local_addr(),
            SysTcpStream::Macos(stream) => stream.local_addr(),
            SysTcpStream::Windows(stream) => stream.local_addr(),
        }
    }

    /// The remote address that this stream is connected to, or is going to connect to.
    pub fn peer_addr(&self) -> (peer: PeerAddr<'_, C>)
        requires
            self.usable(),
        ensures
            peer == self.inner.resource().spec_peer_addr(),
    {
        match &self.inner {
            SysTcpStream::Linux(stream) => stream.peer_addr(),
            SysTcpStream::FreeBsd(stream) => stream.peer_addr(),
            SysTcpStream::Macos(stream) => stream.peer_addr(),
            SysTcpStream::Windows(stream) => stream.peer_addr(),
        }
    }

    /// Gets the value of the `TCP_NODELAY` option on this socket.
    pub fn nodelay(&self) -> (call: SocketCall<'_, S, C>)
        requires
            self.usable(),
        ensures
            call == (SocketCall {
                target: self.inner.resource().spec_handle(),
                op: SocketOp::Nodelay,
            }),
    {
        match &self.inner {
            SysTcpStream::Linux(stream) => stream.nodelay(),
            SysTcpStream::FreeBsd(stream) => stream.nodelay(),
            SysTcpStream::Macos(stream) => stream.nodelay(),
            SysTcpStream::Windows(stream) => stream.nodelay(),
        }
    }

    /// Sets the value of the `TCP_NODELAY` option on this socket.
    pub fn set_nodelay(&self, nodelay: bool) -> (call: SocketCall<'_, S, C>)
        requires
            self.usable(),
        ensures
            call == (SocketCall {
                target: self.inner.resource().spec_handle(),
                op: SocketOp::SetNodelay(nodelay),
            }),
    {
        match &self.inner {
            SysTcpStream::Linux(stream) => stream.set_nodelay(nodelay),
            SysTcpStream::FreeBsd(stream) => stream.set_nodelay(nodelay),
            SysTcpStream::Macos(stream) => stream.set_nodelay(nodelay),
            SysTcpStream::Windows(stream) => stream.set_nodelay(nodelay),
        }
    }

    /// Reads the linger duration for this socket by getting the `SO_LINGER`
    /// option.
    pub fn linger(&self) -> (call: SocketCall<'_, S, C>)
        requires
            self.usable(),
        ensures
            call == (SocketCall {
                target: self.inner.resource().spec_handle(),
                op: SocketOp::Linger,
            }),
    {
        match &self.inner {
            SysTcpStream::Linux(stream) => stream.linger(),
            SysTcpStream::FreeBsd(stream) => stream.linger(),
            SysTcpStream::Macos(stream) => stream.linger(),
            SysTcpStream::Windows(stream) => stream.linger(),
        }
    }

    /// Sets the linger duration of this socket by setting the SO_LINGER option.
    pub fn set_linger(&self, dur: Option<Duration>) -> (call: SocketCall<'_, S, C>)
        requires
            self.usable(),
        ensures
            call == (SocketCall {
                target: self.inner.resource().spec_handle(),
                op: SocketOp::SetLinger(dur),
            }),
    {
        match &self.inner {
            SysTcpStream::Linux(stream) => stream.set_linger(dur),
            SysTcpStream::FreeBsd(stream) => stream.set_linger(dur),
            SysTcpStream::Macos(stream) => stream.set_linger(dur),
            SysTcpStream::Windows(stream) => stream.set_linger(dur),
        }
    }

    /// Gets the value of the `IP_TTL` option for this socket.
    pub fn ttl(&self) -> (call: SocketCall<'_, S, C>)
        requires
            self.usable(),
        ensures
            call == (SocketCall {
                target: self.inner.resource().spec_handle(),
                op: SocketOp::Ttl,
            }),
    {
        match &self.inner {
            SysTcpStream::Linux(stream) => stream.ttl(),
            SysTcpStream::FreeBsd(stream) => stream.ttl(),
            SysTcpStream::Macos(stream) => stream.ttl(),
            SysTcpStream::Windows(stream) => stream.ttl(),
        }
    }

    /// Sets the value for the `IP_TTL` option on this socket.
    pub fn set_ttl(&self, ttl: u32) -> (call: SocketCall<'_, S, C>)
        requires
            self.usable(),
        ensures
            call == (SocketCall {
                target: self.inner.resource().spec_handle(),
                op: SocketOp::SetTtl(ttl),
            }),
    {
        match &self.inner {
            SysTcpStream::Linux(stream) => stream.set_ttl(ttl),
            SysTcpStream::FreeBsd(stream) => stream.set_ttl(ttl),
            SysTcpStream::Macos(stream) => stream.set_ttl(ttl),
            SysTcpStream::Windows(stream) => stream.set_ttl(ttl),
        }
    }

    /// Begins a read by the task of `waker`.
    pub fn poll_read(&mut self, waker: W) -> (action: ReadAction<W>)
        requires
            old(self).usable(),
        ensures
            ({
                let (resource, expected) = old(self).inner.resource().spec_poll_read(waker);
                &&& final(self).inner == old(self).inner.with_resource(resource)
                &&& action == expected
            }),
            final(self).usable(),
    {
        match &mut self.inner {
            SysTcpStream::Linux(stream) => stream.poll_read(waker),
            SysTcpStream::FreeBsd(stream) => stream.poll_read(waker),
            SysTcpStream::Macos(stream) => stream.poll_read(),
            SysTcpStream::Windows(stream) => stream.poll_read(waker),
        }
    }

    /// Goes on with a write of `buf`, of which `event` is the beginning or what came of the last
    /// action.
    pub fn poll_write<'b, E>(
        &mut self,
        buf: &'b [u8],
        event: WriteEvent<S, C, W, O, E>,
        codes: ErrorCodes,
    ) -> (step: WriteStep<'b, S, W, O, E>)
        requires
            old(self).wf(),
            old(self).inner.accepts(event),
        ensures
            (final(self).inner, step) == old(self).inner.spec_poll_write(buf, event, codes),
            final(self).wf(),
    {
        match &mut self.inner {
            SysTcpStream::Linux(stream) => stream.poll_write(buf, event, codes),
            SysTcpStream::FreeBsd(stream) => stream.poll_write(buf, event, codes),
            SysTcpStream::Macos(stream) => stream.poll_write(buf, event),
            SysTcpStream::Windows(stream) => stream.poll_write(buf, event),
        }
    }

    /// Begins a flush. There is nothing to flush before the stream is connected.
    pub fn poll_flush(&self) -> (action: FlushAction)
        ensures
            action == self.inner.resource().spec_poll_flush(),
    {
        match &self.inner {
            SysTcpStream::Linux(stream) => stream.poll_flush(),
            SysTcpStream::FreeBsd(stream) => stream.poll_flush(),
            SysTcpStream::Macos(stream) => stream.poll_flush(),
            SysTcpStream::Windows(stream) => stream.poll_flush(),
        }
    }

    /// Begins a shutdown. There is nothing to shut down before the stream is connected.
    pub fn poll_shutdown(&self) -> (action: FlushAction)
        ensures
            action == self.inner.resource().spec_poll_flush(),
    {
        match &self.inner {
            SysTcpStream::Linux(stream) => stream.poll_shutdown(),
            SysTcpStream::FreeBsd(stream) => stream.poll_shutdown(),
            SysTcpStream::Macos(stream) => stream.poll_shutdown(),
            SysTcpStream::Windows(stream) => stream.poll_shutdown(),
        }
    }

    /// The resource whose descriptor, or whose socket on Windows, is that of the stream.
    pub fn handle(&self) -> (handle: Handle<'_, S, C>)
        requires
            self.usable(),
        ensures
            handle == self.inner.resource().spec_handle(),
    {
        match &self.inner {
            SysTcpStream::Linux(stream) => stream.as_raw_fd(),
            SysTcpStream::FreeBsd(stream) => stream.as_raw_fd(),
            SysTcpStream::Macos(stream) => stream.as_raw_fd(),
            SysTcpStream::Windows(stream) => stream.as_raw_socket(),
        }
    }
}

} // verus!
