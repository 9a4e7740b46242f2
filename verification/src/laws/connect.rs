//! Laws of connecting.

use vstd::prelude::*;

use crate::addr::SocketAddr;
use crate::io::{ErrorCodes, Failure};
use crate::stream::TfoStream;
use crate::sys::platform::{Phase, Platform, SysTcpStream};
use crate::sys::unix::linux;
use crate::sys::{
    windows, ConnectAction, ConnectEvent, ConnectStep, ConnectTicket, OptionSetting, PeerAddr,
    SocketOption, TcpStreamOption,
};

verus! {

/// Whether `event` is an answer to `action`. Sockets that were handed out come back with it.
pub open spec fn answers<S, C, E>(
    action: ConnectAction<S>,
    event: ConnectEvent<S, C, E>,
) -> bool {
    match action {
        ConnectAction::NewSocket { addr, .. } => event matches ConnectEvent::SocketCreated {
            addr: a,
            ..
        } && a == addr,
        ConnectAction::SetOption { ticket, .. } => event matches ConnectEvent::OptionSet {
            ticket: t,
            ..
        } && t == ticket,
        ConnectAction::Bind { ticket, .. } => event matches ConnectEvent::Bound { ticket: t, .. }
            && t == ticket,
        ConnectAction::Connect(_) => event is Connected,
        ConnectAction::ConnectX(ticket) => event matches ConnectEvent::ConnectXReturned {
            ticket: t,
            ..
        } && t == ticket,
        ConnectAction::Register(_) => event is Registered,
    }
}

/// The error that an event carries.
pub open spec fn carried<S, C, E>(event: ConnectEvent<S, C, E>) -> Option<E> {
    match event {
        ConnectEvent::SocketCreated { result: Err(error), .. } => Some(error),
        ConnectEvent::OptionSet { result: Err(failure), .. } => Some(failure.error),
        ConnectEvent::Bound { result: Err(failure), .. } => Some(failure.error),
        ConnectEvent::Connected(Err(error)) => Some(error),
        ConnectEvent::ConnectXReturned { result: Err(error), .. } => Some(error),
        ConnectEvent::Registered(Err(error)) => Some(error),
        _ => None,
    }
}

/// Whether an event says that the system does not know `TCP_FASTOPEN_CONNECT`.
pub open spec fn rules_out_option<S, C, E>(
    platform: Platform,
    event: ConnectEvent<S, C, E>,
    codes: ErrorCodes,
) -> bool {
    &&& platform == Platform::Linux
    &&& event matches ConnectEvent::OptionSet { result: Err(failure), .. }
    &&& failure.code == Some(codes.no_proto_opt)
}

/// Whether an event says that the socket was bound by the caller.
pub open spec fn is_bound_already<S, C, E>(event: ConnectEvent<S, C, E>) -> bool {
    &&& event matches ConnectEvent::Bound { result: Err(failure), .. }
    &&& failure.code == Some(windows::WSAEINVAL)
}

/// The connection of a stream that began with `start` and got these replies, one for each of its
/// actions: the last step, and what is believed of `TCP_FASTOPEN_CONNECT` after it.
pub open spec fn connect_run<S, C, W, O, E>(
    platform: Platform,
    start: ConnectStep<S, TfoStream<S, C, W, O>, E>,
    replies: Seq<ConnectEvent<S, C, E>>,
    codes: ErrorCodes,
    support: bool,
) -> (ConnectStep<S, TfoStream<S, C, W, O>, E>, bool)
    decreases replies.len(),
{
    if replies.len() == 0 {
        (start, support)
    } else {
        let (_, support) = connect_run(platform, start, replies.drop_last(), codes, support);
        TfoStream::spec_resume_connect(platform, replies.last(), codes, support)
    }
}

/// Each of the replies answers the action before it.
pub open spec fn is_connect<S, C, W, O, E>(
    platform: Platform,
    start: ConnectStep<S, TfoStream<S, C, W, O>, E>,
    replies: Seq<ConnectEvent<S, C, E>>,
    codes: ErrorCodes,
    support: bool,
) -> bool
    decreases replies.len(),
{
    replies.len() > 0 ==> {
        &&& is_connect(platform, start, replies.drop_last(), codes, support)
        &&& connect_run(
            platform,
            start,
            replies.drop_last(),
            codes,
            support,
        ).0 matches ConnectStep::Do(action)
        &&& answers(action, replies.last())
    }
}

/// An error ends the attempt to connect, as it came, except for the two that are no obstacle: a system
/// that does not know `TCP_FASTOPEN_CONNECT`, and a socket that the caller has bound.
pub proof fn law_errors_surface<S, C, W, O, E>(
    platform: Platform,
    event: ConnectEvent<S, C, E>,
    codes: ErrorCodes,
    support: bool,
)
    requires
        SysTcpStream::<S, C, W, O>::accepts_connect(platform, event),
    ensures
        ({
            let (step, _) = TfoStream::<S, C, W, O>::spec_resume_connect(
                platform,
                event,
                codes,
                support,
            );
            let fails = carried(event) is Some && !rules_out_option(platform, event, codes)
                && !is_bound_already(event);
            &&& fails <==> (step matches ConnectStep::Return(Err(_)))
            &&& fails ==> step == ConnectStep::<S, TfoStream<S, C, W, O>, E>::Return(
                Err(carried(event)->0),
            )
        }),
{
}

/// That the system knows `TCP_FASTOPEN_CONNECT` is believed until the system says otherwise, and never
/// again after that. Once it is not believed, the option is not tried: on Linux a socket becomes a
/// stream whose first write connects it, with nothing left to do before.
pub proof fn law_option_is_ruled_out_for_good<S, C, W, O, E>(
    platform: Platform,
    event: ConnectEvent<S, C, E>,
    codes: ErrorCodes,
    support: bool,
    socket: S,
    addr: SocketAddr,
)
    requires
        SysTcpStream::<S, C, W, O>::accepts_connect(platform, event),
    ensures
        ({
            let (_, after) = TfoStream::<S, C, W, O>::spec_resume_connect(
                platform,
                event,
                codes,
                support,
            );
            after == (support && !rules_out_option(platform, event, codes))
        }),
        TfoStream::<S, C, W, O>::spec_connect_with_socket::<E>(
            Platform::Linux,
            socket,
            addr,
            false,
        ) matches ConnectStep::Return(Ok(stream)) && {
            &&& stream.inner.resource() == TcpStreamOption::<S, C, W>::target(socket, addr)
            &&& stream.inner.phase() == Phase::FirstWrite
        },
{
}

/// The setting that a socket gets before it is connected with TFO, where it gets one.
pub open spec fn connect_setting(platform: Platform) -> OptionSetting {
    match platform {
        Platform::Linux => linux::fast_open_connect(),
        _ => platform.fast_open(),
    }
}

/// A step belongs to the connection of `socket` to `addr` on `platform`.
spec fn concerns<S, C, W, O, E>(
    platform: Platform,
    step: ConnectStep<S, TfoStream<S, C, W, O>, E>,
    socket: S,
    addr: SocketAddr,
) -> bool {
    match step {
        ConnectStep::Do(action) => {
            let ticket = ConnectTicket { socket, addr };
            match action {
                ConnectAction::NewSocket { .. } => false,
                ConnectAction::SetOption { ticket: t, setting } => {
                    &&& platform != Platform::Macos
                    &&& t == ticket
                    &&& setting == connect_setting(platform)
                },
                ConnectAction::Bind { ticket: t, local } => {
                    &&& platform == Platform::Windows
                    &&& t == ticket
                    &&& local == SocketAddr::spec_unspecified(addr.spec_family())
                },
                ConnectAction::Connect(t) => {
                    &&& platform == Platform::Linux
                    &&& t == ticket
                },
                ConnectAction::ConnectX(t) => {
                    &&& platform == Platform::Macos
                    &&& t == ticket
                },
                ConnectAction::Register(s) => {
                    &&& platform == Platform::Macos
                    &&& s == socket
                },
            }
        },
        ConnectStep::Return(Ok(stream)) => {
            &&& stream.usable()
            &&& stream.inner.platform() == platform
            &&& stream.inner.phase() == Phase::FirstWrite
            &&& match platform {
                Platform::Linux => true,
                Platform::FreeBsd => stream.inner.resource() is Connecting,
                Platform::Macos => stream.inner.resource() is Connected,
                Platform::Windows => stream.inner.resource() is Connecting,
            }
            &&& stream.inner.resource() is Connecting ==> stream.inner.resource()
                == TcpStreamOption::<S, C, W>::target(socket, addr)
        },
        ConnectStep::Return(Err(_)) => true,
    }
}

/// What holds after every step of a connection.
proof fn lemma_connect_run<S, C, W, O, E>(
    platform: Platform,
    start: ConnectStep<S, TfoStream<S, C, W, O>, E>,
    socket: S,
    addr: SocketAddr,
    replies: Seq<ConnectEvent<S, C, E>>,
    codes: ErrorCodes,
    support: bool,
)
    requires
        concerns(platform, start, socket, addr),
        is_connect(platform, start, replies, codes, support),
    ensures
        concerns(
            platform,
            connect_run(platform, start, replies, codes, support).0,
            socket,
            addr,
        ),
    decreases replies.len(),
{
    if replies.len() > 0 {
        lemma_connect_run(platform, start, socket, addr, replies.drop_last(), codes, support);
    }
}

/// Whatever the replies are, the connection of a socket can go on with each of them.
pub proof fn law_connect_is_never_stuck<S, C, W, O, E>(
    platform: Platform,
    socket: S,
    addr: SocketAddr,
    replies: Seq<ConnectEvent<S, C, E>>,
    codes: ErrorCodes,
    support: bool,
    reply: ConnectEvent<S, C, E>,
)
    requires
        ({
            let start = TfoStream::<S, C, W, O>::spec_connect_with_socket::<E>(
                platform,
                socket,
                addr,
                support,
            );
            &&& is_connect(platform, start, replies, codes, support)
            &&& connect_run(platform, start, replies, codes, support).0 matches ConnectStep::Do(
                action,
            )
            &&& answers(action, reply)
        }),
    ensures
        SysTcpStream::<S, C, W, O>::accepts_connect(platform, reply),
{
    let start = TfoStream::<S, C, W, O>::spec_connect_with_socket::<E>(
        platform,
        socket,
        addr,
        support,
    );
    lemma_connect_run(platform, start, socket, addr, replies, codes, support);
}

/// Whatever is done to connect `socket` to `addr` is done to that socket and for that address: it is
/// given the option of the platform, bound to a wildcard address of the family of `addr`, connected to
/// `addr`, and registered with the event loop.
pub proof fn law_connect_keeps_target<S, C, W, O, E>(
    platform: Platform,
    socket: S,
    addr: SocketAddr,
    replies: Seq<ConnectEvent<S, C, E>>,
    codes: ErrorCodes,
    support: bool,
)
    requires
        is_connect(
            platform,
            TfoStream::<S, C, W, O>::spec_connect_with_socket::<E>(platform, socket, addr, support),
            replies,
            codes,
            support,
        ),
    ensures
        ({
            let start = TfoStream::<S, C, W, O>::spec_connect_with_socket::<E>(
                platform,
                socket,
                addr,
                support,
            );
            let target = ConnectTicket { socket, addr };
            match connect_run(platform, start, replies, codes, support).0 {
                ConnectStep::Do(action) => match action {
                    ConnectAction::NewSocket { .. } => false,
                    ConnectAction::SetOption { ticket, setting } => {
                        &&& ticket == target
                        &&& setting == connect_setting(platform)
                    },
                    ConnectAction::Bind { ticket, local } => {
                        &&& ticket == target
                        &&& local == SocketAddr::spec_unspecified(addr.spec_family())
                    },
                    ConnectAction::Connect(ticket) => ticket == target,
                    ConnectAction::ConnectX(ticket) => ticket == target,
                    ConnectAction::Register(s) => s == socket,
                },
                ConnectStep::Return(_) => true,
            }
        }),
{
    let start = TfoStream::<S, C, W, O>::spec_connect_with_socket::<E>(
        platform,
        socket,
        addr,
        support,
    );
    lemma_connect_run(platform, start, socket, addr, replies, codes, support);
}

/// A stream that connecting `socket` to `addr` ends with is usable and has yet to send its first data,
/// together with the connection request. On FreeBSD and Windows, and on a Linux that does not know
/// `TCP_FASTOPEN_CONNECT`, the stream is no more than a record of the socket and the address. A stream
/// that the event loop knows is what connecting that socket to that address has given.
pub proof fn law_connect_records_target<S, C, W, O, E>(
    platform: Platform,
    socket: S,
    addr: SocketAddr,
    replies: Seq<ConnectEvent<S, C, E>>,
    codes: ErrorCodes,
    support: bool,
    stream: TfoStream<S, C, W, O>,
)
    requires
        ({
            let start = TfoStream::<S, C, W, O>::spec_connect_with_socket::<E>(
                platform,
                socket,
                addr,
                support,
            );
            &&& is_connect(platform, start, replies, codes, support)
            &&& connect_run(platform, start, replies, codes, support).0 == ConnectStep::<
                S,
                TfoStream<S, C, W, O>,
                E,
            >::Return(Ok(stream))
        }),
    ensures
        stream.usable(),
        stream.inner.platform() == platform,
        stream.inner.phase() == Phase::FirstWrite,
        platform == Platform::FreeBsd || platform == Platform::Windows
            ==> stream.inner.resource() is Connecting,
        platform == Platform::Macos ==> stream.inner.resource() is Connected,
        stream.inner.resource() is Connecting ==> {
            &&& stream.inner.resource() == TcpStreamOption::<S, C, W>::target(socket, addr)
            &&& stream.inner.resource().spec_peer_addr() == PeerAddr::<C>::Known(addr)
        },
        stream.inner.resource() matches TcpStreamOption::Connected(inner) ==> {
            let start = TfoStream::<S, C, W, O>::spec_connect_with_socket::<E>(
                platform,
                socket,
                addr,
                support,
            );
            let before = replies.drop_last();
            let last = connect_run(platform, start, before, codes, support).0;
            let target = ConnectTicket { socket, addr };
            &&& replies.len() == 2
            &&& {
                ||| {
                    &&& platform == Platform::Linux
                    &&& last == ConnectStep::<S, TfoStream<S, C, W, O>, E>::Do(
                        ConnectAction::Connect(target),
                    )
                    &&& replies.last() == ConnectEvent::<S, C, E>::Connected(Ok(inner))
                }
                ||| {
                    &&& platform == Platform::Macos
                    &&& (before.last() matches ConnectEvent::ConnectXReturned {
                        ticket,
                        result: Ok(_),
                    } && ticket == target)
                    &&& last == ConnectStep::<S, TfoStream<S, C, W, O>, E>::Do(
                        ConnectAction::Register(socket),
                    )
                    &&& replies.last() == ConnectEvent::<S, C, E>::Registered(Ok(inner))
                }
            }
        },
{
    let start = TfoStream::<S, C, W, O>::spec_connect_with_socket::<E>(
        platform,
        socket,
        addr,
        support,
    );
    lemma_connect_run(platform, start, socket, addr, replies, codes, support);
    law_connect_ends::<S, C, W, O, E>(platform, socket, addr, replies, codes, support);
    reveal_with_fuel(is_connect, 3);
    reveal_with_fuel(connect_run, 3);
    if replies.len() > 0 {
        lemma_connect_run(platform, start, socket, addr, replies.drop_last(), codes, support);
    }
}

/// A stream on `platform` that is nothing but a record of a socket and the address to connect it to, with
/// its first write before it and nobody waiting to read.
pub open spec fn is_record<S, C, W, O>(
    stream: TfoStream<S, C, W, O>,
    platform: Platform,
    socket: S,
    addr: SocketAddr,
) -> bool {
    &&& stream.usable()
    &&& stream.inner.platform() == platform
    &&& stream.inner.phase() == Phase::FirstWrite
    &&& stream.inner.resource() matches TcpStreamOption::Connecting { socket: s, addr: a, reader }
    &&& s == socket
    &&& a == addr
    &&& reader is None
}

/// A stream on `platform` that the event loop knows, and whose first write carries the connection request.
pub open spec fn is_requested<S, C, W, O>(
    stream: TfoStream<S, C, W, O>,
    platform: Platform,
    inner: C,
) -> bool {
    &&& stream.usable()
    &&& stream.inner.platform() == platform
    &&& stream.inner.phase() == Phase::FirstWrite
    &&& stream.inner.resource() matches TcpStreamOption::Connected(c)
    &&& c == inner
}

/// The first thing to be done with a socket that is to be connected: on macOS that is `connectx`, and
/// elsewhere to set the option that TFO takes. A Linux that does not know the option needs nothing done.
pub proof fn law_connect_begins<S, C, W, O, E>(
    platform: Platform,
    socket: S,
    addr: SocketAddr,
    support: bool,
)
    ensures
        match TfoStream::<S, C, W, O>::spec_connect_with_socket::<E>(
            platform,
            socket,
            addr,
            support,
        ) {
            ConnectStep::Do(ConnectAction::SetOption { ticket, setting }) => {
                &&& platform == Platform::FreeBsd || platform == Platform::Windows || (platform
                    == Platform::Linux && support)
                &&& ticket.socket == socket
                &&& ticket.addr == addr
                &&& setting.value == 1
                &&& setting.option == (if platform == Platform::Linux {
                    SocketOption::FastOpenConnect
                } else {
                    SocketOption::FastOpen
                })
            },
            ConnectStep::Do(ConnectAction::ConnectX(ticket)) => {
                &&& platform == Platform::Macos
                &&& ticket.socket == socket
                &&& ticket.addr == addr
            },
            ConnectStep::Return(Ok(stream)) => {
                &&& platform == Platform::Linux
                &&& !support
                &&& is_record(stream, platform, socket, addr)
            },
            _ => false,
        },
{
}

/// What setting the option has come to decides. If it is set, Linux connects the socket, Windows binds it
/// to the wildcard address of the family of the target, and FreeBSD is done. If Linux does not know the
/// option, it is done without, and the option is not believed in any more. Any other error comes back.
pub proof fn law_option_decides<S, C, W, O, E>(
    platform: Platform,
    ticket: ConnectTicket<S>,
    result: Result<(), Failure<E>>,
    codes: ErrorCodes,
    support: bool,
)
    requires
        platform != Platform::Macos,
    ensures
        ({
            let event = ConnectEvent::<S, C, E>::OptionSet { ticket, result };
            let (step, after) = TfoStream::<S, C, W, O>::spec_resume_connect(
                platform,
                event,
                codes,
                support,
            );
            let unknown = platform == Platform::Linux && result is Err && result->Err_0.code
                == Some(codes.no_proto_opt);
            &&& SysTcpStream::<S, C, W, O>::accepts_connect(platform, event)
            &&& after == (support && !unknown)
            &&& match step {
                ConnectStep::Do(ConnectAction::Connect(t)) => {
                    &&& platform == Platform::Linux
                    &&& result is Ok
                    &&& t == ticket
                },
                ConnectStep::Do(ConnectAction::Bind { ticket: t, local }) => {
                    &&& platform == Platform::Windows
                    &&& result is Ok
                    &&& t == ticket
                    &&& local is V6 <==> ticket.addr is V6
                    &&& match local {
                        SocketAddr::V4(v4) => v4.ip == 0 && v4.port == 0,
                        SocketAddr::V6(v6) => {
                            &&& v6.ip == 0
                            &&& v6.port == 0
                            &&& v6.flowinfo == 0
                            &&& v6.scope_id == 0
                        },
                    }
                },
                ConnectStep::Return(Ok(stream)) => {
                    &&& unknown || (platform == Platform::FreeBsd && result is Ok)
                    &&& is_record(stream, platform, ticket.socket, ticket.addr)
                },
                ConnectStep::Return(Err(error)) => {
                    &&& !unknown
                    &&& result matches Err(failure)
                    &&& error == failure.error
                },
                _ => false,
            }
        }),
{
}

/// What binding a socket on Windows has come to decides: if it is bound, now or before, the connection is
/// prepared; otherwise the error comes back.
pub proof fn law_binding_decides<S, C, W, O, E>(
    ticket: ConnectTicket<S>,
    result: Result<(), Failure<E>>,
    codes: ErrorCodes,
    support: bool,
)
    ensures
        ({
            let event = ConnectEvent::<S, C, E>::Bound { ticket, result };
            let (step, after) = TfoStream::<S, C, W, O>::spec_resume_connect(
                Platform::Windows,
                event,
                codes,
                support,
            );
            let is_bound = result is Ok || result->Err_0.code == Some(10022i32);
            &&& SysTcpStream::<S, C, W, O>::accepts_connect(Platform::Windows, event)
            &&& after == support
            &&& match step {
                ConnectStep::Return(Ok(stream)) => {
                    &&& is_bound
                    &&& is_record(stream, Platform::Windows, ticket.socket, ticket.addr)
                },
                ConnectStep::Return(Err(error)) => {
                    &&& !is_bound
                    &&& error == result->Err_0.error
                },
                _ => false,
            }
        }),
{
}

/// A socket that Linux has connected, and one of macOS that was registered, is the stream, whose first
/// write carries the connection request. The error comes back if there is one.
pub proof fn law_connected_socket_is_the_stream<S, C, W, O, E>(
    platform: Platform,
    result: Result<C, E>,
    codes: ErrorCodes,
    support: bool,
)
    requires
        platform == Platform::Linux || platform == Platform::Macos,
    ensures
        ({
            let event = if platform == Platform::Linux {
                ConnectEvent::<S, C, E>::Connected(result)
            } else {
                ConnectEvent::<S, C, E>::Registered(result)
            };
            let (step, after) = TfoStream::<S, C, W, O>::spec_resume_connect(
                platform,
                event,
                codes,
                support,
            );
            &&& SysTcpStream::<S, C, W, O>::accepts_connect(platform, event)
            &&& after == support
            &&& match step {
                ConnectStep::Return(Ok(stream)) => {
                    &&& result is Ok
                    &&& is_requested(stream, platform, result->Ok_0)
                },
                ConnectStep::Return(Err(error)) => {
                    &&& result is Err
                    &&& error == result->Err_0
                },
                _ => false,
            }
        }),
{
}

/// A socket of macOS that `connectx` has taken on is registered. The error comes back if there is one.
pub proof fn law_connectx_decides<S, C, W, O, E>(
    ticket: ConnectTicket<S>,
    result: Result<(), E>,
    codes: ErrorCodes,
    support: bool,
)
    ensures
        ({
            let event = ConnectEvent::<S, C, E>::ConnectXReturned { ticket, result };
            let (step, after) = TfoStream::<S, C, W, O>::spec_resume_connect(
                Platform::Macos,
                event,
                codes,
                support,
            );
            &&& SysTcpStream::<S, C, W, O>::accepts_connect(Platform::Macos, event)
            &&& after == support
            &&& match step {
                ConnectStep::Do(ConnectAction::Register(socket)) => {
                    &&& result is Ok
                    &&& socket == ticket.socket
                },
                ConnectStep::Return(Err(error)) => {
                    &&& result is Err
                    &&& error == result->Err_0
                },
                _ => false,
            }
        }),
{
}

/// A stream that connecting a socket ends with was prepared for TFO. On FreeBSD the option was set with
/// success, and nothing else was done. On Windows the option was set with success, and after that the
/// socket was bound, then or before. On macOS `connectx` has taken it on, and it was registered. On Linux
/// the option was set with success and the socket was connected, or the system does not know the option.
pub proof fn law_streams_are_prepared<S, C, W, O, E>(
    platform: Platform,
    socket: S,
    addr: SocketAddr,
    replies: Seq<ConnectEvent<S, C, E>>,
    codes: ErrorCodes,
    support: bool,
    stream: TfoStream<S, C, W, O>,
)
    requires
        ({
            let start = TfoStream::<S, C, W, O>::spec_connect_with_socket::<E>(
                platform,
                socket,
                addr,
                support,
            );
            &&& is_connect(platform, start, replies, codes, support)
            &&& connect_run(platform, start, replies, codes, support).0 == ConnectStep::<
                S,
                TfoStream<S, C, W, O>,
                E,
            >::Return(Ok(stream))
        }),
    ensures
        ({
            let target = ConnectTicket { socket, addr };
            match platform {
                Platform::FreeBsd => {
                    &&& replies.len() == 1
                    &&& replies[0] matches ConnectEvent::OptionSet { ticket, result: Ok(_) }
                    &&& ticket == target
                },
                Platform::Windows => {
                    &&& replies.len() == 2
                    &&& replies[0] matches ConnectEvent::OptionSet { ticket, result: Ok(_) }
                    &&& ticket == target
                    &&& replies[1] matches ConnectEvent::Bound { ticket: bound, result }
                    &&& bound == target
                    &&& result is Ok || result->Err_0.code == Some(10022i32)
                },
                Platform::Macos => {
                    &&& replies.len() == 2
                    &&& replies[0] matches ConnectEvent::ConnectXReturned { ticket, result: Ok(_) }
                    &&& ticket == target
                    &&& replies[1] matches ConnectEvent::Registered(Ok(_))
                },
                Platform::Linux => if replies.len() == 0 {
                    !support
                } else if replies.len() == 1 {
                    &&& support
                    &&& replies[0] matches ConnectEvent::OptionSet { ticket, result: Err(failure) }
                    &&& ticket == target
                    &&& failure.code == Some(codes.no_proto_opt)
                } else {
                    &&& support
                    &&& replies.len() == 2
                    &&& replies[0] matches ConnectEvent::OptionSet { ticket, result: Ok(_) }
                    &&& ticket == target
                    &&& replies[1] matches ConnectEvent::Connected(Ok(_))
                },
            }
        }),
{
    law_connect_ends::<S, C, W, O, E>(platform, socket, addr, replies, codes, support);
    reveal_with_fuel(is_connect, 3);
    reveal_with_fuel(connect_run, 3);
    if replies.len() > 0 {
        let before = replies.drop_last();
        assert(replies[replies.len() - 1] == replies.last());
        if before.len() > 0 {
            assert(before.last() == replies[0]);
            assert(before.drop_last() =~= Seq::empty());
        }
    }
}

/// How many actions a connection has before it at most. What a platform asks for first takes one more
/// than what it asks for last.
spec fn actions_left<S, T, E>(platform: Platform, step: ConnectStep<S, T, E>) -> int {
    match step {
        ConnectStep::Do(ConnectAction::SetOption { .. }) => if platform == Platform::FreeBsd {
            1
        } else {
            2
        },
        ConnectStep::Do(ConnectAction::ConnectX(_)) => 2,
        ConnectStep::Do(_) => 1,
        ConnectStep::Return(_) => 0,
    }
}

/// Connecting a socket takes no more than two actions, and on FreeBSD no more than one.
pub proof fn law_connect_ends<S, C, W, O, E>(
    platform: Platform,
    socket: S,
    addr: SocketAddr,
    replies: Seq<ConnectEvent<S, C, E>>,
    codes: ErrorCodes,
    support: bool,
)
    requires
        is_connect(
            platform,
            TfoStream::<S, C, W, O>::spec_connect_with_socket::<E>(platform, socket, addr, support),
            replies,
            codes,
            support,
        ),
    ensures
        replies.len() <= 2,
        platform == Platform::FreeBsd ==> replies.len() <= 1,
        ({
            let start = TfoStream::<S, C, W, O>::spec_connect_with_socket::<E>(
                platform,
                socket,
                addr,
                support,
            );
            let limit: nat = if platform == Platform::FreeBsd {
                1
            } else {
                2
            };
            replies.len() == limit ==> connect_run(platform, start, replies, codes, support).0
                is Return
        }),
{
    let start = TfoStream::<S, C, W, O>::spec_connect_with_socket::<E>(
        platform,
        socket,
        addr,
        support,
    );
    lemma_connect_ends(platform, start, socket, addr, replies, codes, support);
}

/// Every reply brings a connection closer to its end.
proof fn lemma_connect_ends<S, C, W, O, E>(
    platform: Platform,
    start: ConnectStep<S, TfoStream<S, C, W, O>, E>,
    socket: S,
    addr: SocketAddr,
    replies: Seq<ConnectEvent<S, C, E>>,
    codes: ErrorCodes,
    support: bool,
)
    requires
        concerns(platform, start, socket, addr),
        is_connect(platform, start, replies, codes, support),
    ensures
        actions_left(platform, connect_run(platform, start, replies, codes, support).0)
            + replies.len() <= actions_left(platform, start),
    decreases replies.len(),
{
    if replies.len() > 0 {
        lemma_connect_ends(platform, start, socket, addr, replies.drop_last(), codes, support);
        lemma_connect_run(platform, start, socket, addr, replies.drop_last(), codes, support);
    }
}

/// To connect to an address is to create a socket of its family and to connect that.
pub proof fn law_connect_creates_a_socket<S, C, W, O, E>(
    platform: Platform,
    addr: SocketAddr,
    created: Result<S, E>,
    codes: ErrorCodes,
    support: bool,
)
    ensures
        ({
            let event = ConnectEvent::<S, C, E>::SocketCreated { addr, result: created };
            &&& SysTcpStream::<S, C, W, O>::accepts_connect(platform, event)
            &&& TfoStream::<S, C, W, O>::spec_resume_connect(platform, event, codes, support) == (
                match created {
                    Ok(socket) => TfoStream::<S, C, W, O>::spec_connect_with_socket::<E>(
                        platform,
                        socket,
                        addr,
                        support,
                    ),
                    Err(error) => ConnectStep::Return(Err(error)),
                },
                support,
            )
        }),
{
}

} // verus!
