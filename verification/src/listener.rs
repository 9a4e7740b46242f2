//! TFO listener
//!
//! Beside the resources that streams have, `N` is a listener that the event loop does not know, and
//! `L` one that it does.

use vstd::prelude::*;

use crate::addr::{AddressFamily, SocketAddr};
use crate::io::Poll;
use crate::stream::TfoStream;
use crate::sys::platform::{Platform, SysTcpStream};
use crate::sys::unix::bsd::{freebsd, macos};
use crate::sys::unix::linux;
use crate::sys::{windows, OptionSetting, SocketOp};

verus! {

/// Number of connections that may wait to be accepted.
pub const BACKLOG: u32 = 1024;

/// TCP listener with TFO enabled
#[derive(Debug, PartialEq, Eq)]
pub struct TfoListener<L> {
    pub platform: Platform,
    pub inner: L,
}

/// A socket on its way to listen on `addr`.
#[derive(Debug, PartialEq, Eq)]
pub struct ListenTicket<S> {
    pub socket: S,
    pub addr: SocketAddr,
}

/// What has to be done to set up a listener.
#[derive(Debug, PartialEq, Eq)]
pub enum ListenAction<S, N, L> {
    /// Create a socket of this family.
    NewSocket { family: AddressFamily, addr: SocketAddr },
    /// Set the option `SO_REUSEADDR` of the socket.
    SetReuseAddr { ticket: ListenTicket<S>, value: bool },
    /// Set an option on the socket.
    SetOption { ticket: ListenTicket<S>, setting: OptionSetting },
    /// Bind the socket to the address.
    Bind(ListenTicket<S>),
    /// Make the socket listen.
    Listen { socket: S, backlog: u32 },
    /// Make the listener return at once from operations that would have to wait.
    SetNonblocking(N),
    /// Register the listener with the event loop.
    Register(N),
    /// Set an option on the listener.
    SetListenerOption { listener: L, setting: OptionSetting },
}

/// The next action, or the end.
#[derive(Debug, PartialEq, Eq)]
pub enum ListenStep<S, N, L, E> {
    Do(ListenAction<S, N, L>),
    Return(Result<TfoListener<L>, E>),
}

/// What came of an action.
#[allow(inconsistent_fields)]
#[derive(Debug, PartialEq, Eq)]
pub enum ListenEvent<S, N, L, E> {
    /// Answers `NewSocket`.
    SocketCreated { addr: SocketAddr, result: Result<S, E> },
    /// Answers `SetReuseAddr`.
    ReuseAddrSet { ticket: ListenTicket<S>, result: Result<(), E> },
    /// Answers `SetOption`.
    OptionSet { ticket: ListenTicket<S>, result: Result<(), E> },
    /// Answers `Bind`.
    Bound { ticket: ListenTicket<S>, result: Result<(), E> },
    /// Answers `Listen`.
    Listening(Result<L, E>),
    /// Answers `SetNonblocking`.
    NonblockingSet { listener: N, result: Result<(), E> },
    /// Answers `Register`.
    Registered(Result<L, E>),
    /// Answers `SetListenerOption`.
    ListenerOptionSet { listener: L, result: Result<(), E> },
}

/// An operation, and the listener to perform it on. What the operation returns is the answer.
#[derive(Debug, PartialEq, Eq)]
pub struct ListenerCall<'a, L> {
    pub target: &'a L,
    pub op: SocketOp,
}

impl<L> TfoListener<L> {
    /// A socket is about to get its TFO option.
    pub open spec fn set_socket_option<S, N, E>(
        platform: Platform,
        ticket: ListenTicket<S>,
    ) -> ListenStep<S, N, L, E> {
        ListenStep::Do(ListenAction::SetOption { ticket, setting: platform.socket_setting() })
    }

    /// A listener is about to get its TFO option.
    pub open spec fn spec_from_tokio<S, N, E>(platform: Platform, listener: L) -> ListenStep<
        S,
        N,
        L,
        E,
    > {
        ListenStep::Do(
            ListenAction::SetListenerOption { listener, setting: platform.fast_open() },
        )
    }

    /// What follows upon an event in the setup of a listener on `platform`.
    pub open spec fn spec_resume<S, N, E>(
        platform: Platform,
        event: ListenEvent<S, N, L, E>,
    ) -> ListenStep<S, N, L, E> {
        match event {
            ListenEvent::SocketCreated { addr, result: Ok(socket) } => {
                let ticket = ListenTicket { socket, addr };
                // On Windows SO_REUSEADDR would let others take the address over.
                if platform == Platform::Windows {
                    Self::set_socket_option(platform, ticket)
                } else {
                    ListenStep::Do(ListenAction::SetReuseAddr { ticket, value: true })
                }
            },
            ListenEvent::SocketCreated { result: Err(error), .. } => ListenStep::Return(Err(error)),
            ListenEvent::ReuseAddrSet { ticket, result: Ok(_) } => Self::set_socket_option(
                platform,
                ticket,
            ),
            ListenEvent::ReuseAddrSet { result: Err(error), .. } => ListenStep::Return(Err(error)),
            // TCP_FASTOPEN_FORCE_ENABLE is good to have, but not necessary.
            ListenEvent::OptionSet { ticket, result } => match result {
                Err(error) if platform != Platform::Macos => ListenStep::Return(Err(error)),
                _ => ListenStep::Do(ListenAction::Bind(ticket)),
            },
            ListenEvent::Bound { ticket, result: Ok(_) } => ListenStep::Do(
                ListenAction::Listen { socket: ticket.socket, backlog: BACKLOG },
            ),
            ListenEvent::Bound { result: Err(error), .. } => ListenStep::Return(Err(error)),
            ListenEvent::Listening(Ok(listener)) => if platform == Platform::Macos {
                Self::spec_from_tokio(platform, listener)
            } else {
                ListenStep::Return(Ok(TfoListener { platform, inner: listener }))
            },
            ListenEvent::Listening(Err(error)) => ListenStep::Return(Err(error)),
            ListenEvent::NonblockingSet { listener, result: Ok(_) } => ListenStep::Do(
                ListenAction::Register(listener),
            ),
            ListenEvent::NonblockingSet { result: Err(error), .. } => ListenStep::Return(
                Err(error),
            ),
            ListenEvent::Registered(Ok(listener)) => Self::spec_from_tokio(platform, listener),
            ListenEvent::Registered(Err(error)) => ListenStep::Return(Err(error)),
            ListenEvent::ListenerOptionSet { listener, result: Ok(_) } => ListenStep::Return(
                Ok(TfoListener { platform, inner: listener }),
            ),
            ListenEvent::ListenerOptionSet { result: Err(error), .. } => ListenStep::Return(
                Err(error),
            ),
        }
    }

    /// Bind the socket to the given address.
    ///
    /// This will create a TCP listener with TFO enabled.
    pub fn bind<S, N, E>(addr: SocketAddr) -> (step: ListenStep<S, N, L, E>)
        ensures
            step == ListenStep::<S, N, L, E>::Do(
                ListenAction::NewSocket { family: addr.spec_family(), addr },
            ),
            step matches ListenStep::Do(ListenAction::NewSocket { family, addr: a }) && {
                &&& a == addr
                &&& family is V6 <==> addr is V6
            },
    {
        ListenStep::Do(ListenAction::NewSocket { family: addr.family(), addr })
    }

    /// Creates new `TfoListener` from a `std::net::TcpListener`.
    ///
    /// This will enable the TCP listener with TFO enabled.
    ///
    /// The `std::net::TcpListener` must be in TCPS_LISTEN.
    pub fn from_std<S, N, E>(listener: N) -> (step: ListenStep<S, N, L, E>)
        ensures
            step == ListenStep::<S, N, L, E>::Do(ListenAction::SetNonblocking(listener)),
    {
        // The event loop has to be able to go on with something else.
        ListenStep::Do(ListenAction::SetNonblocking(listener))
    }

    /// Creates new `TfoListener` from a `tokio::net::TcpListener`.
    ///
    /// This will enable the TCP listener with TFO enabled.
    pub fn from_tokio<S, N, E>(platform: Platform, listener: L) -> (step: ListenStep<S, N, L, E>)
        ensures
            step == Self::spec_from_tokio::<S, N, E>(platform, listener),
    {
        let setting = match platform {
            Platform::Linux => linux::set_tcp_fastopen(&listener).setting,
            Platform::FreeBsd => freebsd::set_tcp_fastopen(&listener).setting,
            Platform::Macos => macos::set_tcp_fastopen(&listener).setting,
            Platform::Windows => windows::set_tcp_fastopen(&listener).setting,
        };
        ListenStep::Do(ListenAction::SetListenerOption { listener, setting })
    }

    /// Sets the TFO option of a socket that is going to listen.
    fn prepare<S, N, E>(platform: Platform, ticket: ListenTicket<S>) -> (step: ListenStep<
        S,
        N,
        L,
        E,
    >)
        ensures
            step == Self::set_socket_option::<S, N, E>(platform, ticket),
    {
        let setting = match platform {
            Platform::Linux => linux::set_tcp_fastopen(&ticket.socket).setting,
            Platform::FreeBsd => freebsd::set_tcp_fastopen(&ticket.socket).setting,
            Platform::Macos => macos::set_tcp_fastopen_force_enable(&ticket.socket).setting,
            Platform::Windows => windows::set_tcp_fastopen(&ticket.socket).setting,
        };
        ListenStep::Do(ListenAction::SetOption { ticket, setting })
    }

    /// Goes on setting up a listener.
    pub fn resume<S, N, E>(platform: Platform, event: ListenEvent<S, N, L, E>) -> (step: ListenStep<
        S,
        N,
        L,
        E,
    >)
        ensures
            step == Self::spec_resume(platform, event),
    {
        match event {
            ListenEvent::SocketCreated { addr, result: Ok(socket) } => {
                let ticket = ListenTicket { socket, addr };
                match platform {
                    Platform::Windows => Self::prepare(platform, ticket),
                    _ => ListenStep::Do(ListenAction::SetReuseAddr { ticket, value: true }),
                }
            },
            ListenEvent::SocketCreated { result: Err(error), .. } => ListenStep::Return(Err(error)),
            ListenEvent::ReuseAddrSet { ticket, result: Ok(_) } => Self::prepare(platform, ticket),
            ListenEvent::ReuseAddrSet { result: Err(error), .. } => ListenStep::Return(Err(error)),
            ListenEvent::OptionSet { ticket, result } => {
                if let Err(error) = result {
                    if !matches!(platform, Platform::Macos) {
                        return ListenStep::Return(Err(error));
                    }
                }
                ListenStep::Do(ListenAction::Bind(ticket))
            },
            ListenEvent::Bound { ticket, result: Ok(_) } => {
                ListenStep::Do(ListenAction::Listen { socket: ticket.socket, backlog: BACKLOG })
            },
            ListenEvent::Bound { result: Err(error), .. } => ListenStep::Return(Err(error)),
            ListenEvent::Listening(Ok(listener)) => {
                match platform {
                    Platform::Macos => Self::from_tokio(platform, listener),
                    _ => ListenStep::Return(Ok(TfoListener { platform, inner: listener })),
                }
            },
            ListenEvent::Listening(Err(error)) => ListenStep::Return(Err(error)),
            ListenEvent::NonblockingSet { listener, result: Ok(_) } => {
                ListenStep::Do(ListenAction::Register(listener))
            },
            ListenEvent::NonblockingSet { result: Err(error), .. } => {
                ListenStep::Return(Err(error))
            },
            ListenEvent::Registered(Ok(listener)) => Self::from_tokio(platform, listener),
            ListenEvent::Registered(Err(error)) => ListenStep::Return(Err(error)),
            ListenEvent::ListenerOptionSet { listener, result: Ok(_) } => {
                ListenStep::Return(Ok(TfoListener { platform, inner: listener }))
            },
            ListenEvent::ListenerOptionSet { result: Err(error), .. } => {
                ListenStep::Return(Err(error))
            },
        }
    }

    /// A connected stream made of what the listener accepted.
    pub open spec fn accepted<S, C, W, O, E>(
        platform: Platform,
        accepted: Poll<Result<(C, SocketAddr), E>>,
    ) -> Poll<Result<(TfoStream<S, C, W, O>, SocketAddr), E>> {
        match accepted {
            Poll::Pending => Poll::Pending,
            Poll::Ready(Err(error)) => Poll::Ready(Err(error)),
            Poll::Ready(Ok((stream, peer_addr))) => Poll::Ready(
                Ok((TfoStream { inner: SysTcpStream::spec_from(platform, stream) }, peer_addr)),
            ),
        }
    }

    /// Polls to accept a new incoming connection to this listener. `accepted` is what polling the
    /// listener of the event loop has come to.
    pub fn poll_accept<S, C, W, O, E>(&self, accepted: Poll<Result<(C, SocketAddr), E>>) -> (poll:
        Poll<Result<(TfoStream<S, C, W, O>, SocketAddr), E>>)
        ensures
            poll == Self::accepted::<S, C, W, O, E>(self.platform, accepted),
    {
        match accepted {
            Poll::Pending => Poll::Pending,
            Poll::Ready(Err(error)) => Poll::Ready(Err(error)),
            Poll::Ready(Ok((stream, peer_addr))) => {
                Poll::Ready(Ok((TfoStream::from(self.platform, stream), peer_addr)))
            },
        }
    }

    /// Asks for the local address that this listener is bound to.
    pub fn local_addr(&self) -> (call: ListenerCall<'_, L>)
        ensures
            call == (ListenerCall { target: &self.inner, op: SocketOp::LocalAddr }),
    {
        ListenerCall { target: &self.inner, op: SocketOp::LocalAddr }
    }
}

} // verus!
