//! Laws of listening.

use vstd::prelude::*;

use crate::addr::SocketAddr;
use crate::io::{ErrorCodes, Poll};
use crate::listener::{ListenAction, ListenEvent, ListenStep, ListenTicket, TfoListener};
use crate::sys::platform::{Phase, Platform};
use crate::sys::{SocketOption, TcpStreamOption, WriteAction, WriteEvent, WriteStep};

verus! {

/// Whether `event` is an answer to `action`. Sockets and listeners that were handed out come back with
/// it.
pub open spec fn answers<S, N, L, E>(
    action: ListenAction<S, N, L>,
    event: ListenEvent<S, N, L, E>,
) -> bool {
    match action {
        ListenAction::NewSocket { addr, .. } => event matches ListenEvent::SocketCreated {
            addr: a,
            ..
        } && a == addr,
        ListenAction::SetReuseAddr { ticket, .. } => event matches ListenEvent::ReuseAddrSet {
            ticket: t,
            ..
        } && t == ticket,
        ListenAction::SetOption { ticket, .. } => event matches ListenEvent::OptionSet {
            ticket: t,
            ..
        } && t == ticket,
        ListenAction::Bind(ticket) => event matches ListenEvent::Bound { ticket: t, .. } && t
            == ticket,
        ListenAction::Listen { .. } => event is Listening,
        ListenAction::SetNonblocking(listener) => event matches ListenEvent::NonblockingSet {
            listener: l,
            ..
        } && l == listener,
        ListenAction::Register(_) => event is Registered,
        ListenAction::SetListenerOption { listener, .. } => event matches ListenEvent::ListenerOptionSet {
            listener: l,
            ..
        } && l == listener,
    }
}

/// The error that an event carries.
pub open spec fn carried<S, N, L, E>(event: ListenEvent<S, N, L, E>) -> Option<E> {
    match event {
        ListenEvent::SocketCreated { result: Err(error), .. } => Some(error),
        ListenEvent::ReuseAddrSet { result: Err(error), .. } => Some(error),
        ListenEvent::OptionSet { result: Err(error), .. } => Some(error),
        ListenEvent::Bound { result: Err(error), .. } => Some(error),
        ListenEvent::Listening(Err(error)) => Some(error),
        ListenEvent::NonblockingSet { result: Err(error), .. } => Some(error),
        ListenEvent::Registered(Err(error)) => Some(error),
        ListenEvent::ListenerOptionSet { result: Err(error), .. } => Some(error),
        _ => None,
    }
}

/// The setup of a listener that began with `start` and got these replies, one for each of its actions:
/// the last step.
pub open spec fn listen_run<S, N, L, E>(
    platform: Platform,
    start: ListenStep<S, N, L, E>,
    replies: Seq<ListenEvent<S, N, L, E>>,
) -> ListenStep<S, N, L, E> {
    if replies.len() == 0 {
        start
    } else {
        TfoListener::spec_resume(platform, replies.last())
    }
}

/// Each of the replies answers the action before it.
pub open spec fn is_setup<S, N, L, E>(
    platform: Platform,
    start: ListenStep<S, N, L, E>,
    replies: Seq<ListenEvent<S, N, L, E>>,
) -> bool
    decreases replies.len(),
{
    replies.len() > 0 ==> {
        &&& is_setup(platform, start, replies.drop_last())
        &&& listen_run(platform, start, replies.drop_last()) matches ListenStep::Do(action)
        &&& answers(action, replies.last())
    }
}

/// Step number `i` of a setup.
pub open spec fn step_at<S, N, L, E>(
    platform: Platform,
    start: ListenStep<S, N, L, E>,
    replies: Seq<ListenEvent<S, N, L, E>>,
    i: int,
) -> ListenStep<S, N, L, E> {
    listen_run(platform, start, replies.take(i))
}

/// Step number `i` of a setup sets the option that makes a listener of `platform` accept TFO, on
/// `listener`, and with the answer that it is set the setup is over.
pub open spec fn enabled_on_listener<S, N, L, E>(
    platform: Platform,
    start: ListenStep<S, N, L, E>,
    replies: Seq<ListenEvent<S, N, L, E>>,
    listener: L,
    i: int,
) -> bool {
    &&& 0 <= i
    &&& replies.len() == i + 1
    &&& step_at(platform, start, replies, i) == ListenStep::<S, N, L, E>::Do(
        ListenAction::SetListenerOption { listener, setting: platform.fast_open() },
    )
    &&& replies[i] matches ListenEvent::ListenerOptionSet { listener: l, result: Ok(_) }
    &&& l == listener
}

/// Step number `i` of a setup sets the option that makes a listener of `platform` accept TFO, on a
/// socket. With the answer that it is set the same socket is bound, and after that it is made to
/// listen, which gives `listener` and ends the setup.
pub open spec fn enabled_on_socket<S, N, L, E>(
    platform: Platform,
    start: ListenStep<S, N, L, E>,
    replies: Seq<ListenEvent<S, N, L, E>>,
    listener: L,
    i: int,
) -> bool {
    &&& 0 <= i
    &&& replies.len() == i + 3
    &&& step_at(platform, start, replies, i) matches ListenStep::Do(
        ListenAction::SetOption { ticket, setting },
    )
    &&& setting == platform.fast_open()
    &&& (replies[i] matches ListenEvent::OptionSet { ticket: t, result: Ok(_) } && t == ticket)
    &&& step_at(platform, start, replies, i + 1) == ListenStep::<S, N, L, E>::Do(
        ListenAction::Bind(ticket),
    )
    &&& (replies[i + 1] matches ListenEvent::Bound { ticket: t, result: Ok(_) } && t == ticket)
    &&& step_at(platform, start, replies, i + 2) == ListenStep::<S, N, L, E>::Do(
        ListenAction::Listen { socket: ticket.socket, backlog: 1024 },
    )
    &&& replies[i + 2] == ListenEvent::<S, N, L, E>::Listening(Ok(listener))
}

/// A setup is one that the library begins: of a listener on an address, or of a listener that exists.
pub open spec fn is_start<S, N, L, E>(platform: Platform, start: ListenStep<S, N, L, E>) -> bool {
    match start {
        ListenStep::Do(ListenAction::NewSocket { family, addr }) => family == addr.spec_family(),
        ListenStep::Do(ListenAction::SetNonblocking(_)) => true,
        ListenStep::Do(ListenAction::SetListenerOption { setting, .. }) => setting
            == platform.fast_open(),
        _ => false,
    }
}

/// What `bind`, `from_std` and `from_tokio` return begins a setup.
pub proof fn law_setups_have_a_start<S, N, L, E>(
    platform: Platform,
    addr: SocketAddr,
    unregistered: N,
    listener: L,
)
    ensures
        is_start(
            platform,
            ListenStep::<S, N, L, E>::Do(
                ListenAction::NewSocket { family: addr.spec_family(), addr },
            ),
        ),
        is_start(platform, ListenStep::<S, N, L, E>::Do(ListenAction::SetNonblocking(unregistered))),
        is_start(platform, TfoListener::<L>::spec_from_tokio::<S, N, E>(platform, listener)),
{
}

/// An error ends the setup of a listener, as it came. The one exception is
/// `TCP_FASTOPEN_FORCE_ENABLE` on macOS, which a listener can do without.
pub proof fn law_errors_surface<S, N, L, E>(platform: Platform, event: ListenEvent<S, N, L, E>)
    ensures
        ({
            let step = TfoListener::spec_resume(platform, event);
            let fails = carried(event) is Some && !(platform == Platform::Macos
                && event is OptionSet);
            &&& fails <==> (step matches ListenStep::Return(Err(_)))
            &&& fails ==> step == ListenStep::<S, N, L, E>::Return(Err(carried(event)->0))
        }),
{
}

/// The order in which the socket of a listener is set up, as long as everything goes well.
pub proof fn law_bind_order<S, N, L, E>(platform: Platform, addr: SocketAddr, socket: S, listener: L)
    ensures
        ({
            let ticket = ListenTicket { socket, addr };
            let created = ListenEvent::<S, N, L, E>::SocketCreated { addr, result: Ok(socket) };
            let reuse_set = ListenEvent::<S, N, L, E>::ReuseAddrSet { ticket, result: Ok(()) };
            let option_set = ListenEvent::<S, N, L, E>::OptionSet { ticket, result: Ok(()) };
            let bound = ListenEvent::<S, N, L, E>::Bound { ticket, result: Ok(()) };
            let listening = ListenEvent::<S, N, L, E>::Listening(Ok(listener));
            let listener_set = ListenEvent::<S, N, L, E>::ListenerOptionSet {
                listener,
                result: Ok(()),
            };
            let set_reuse = ListenAction::SetReuseAddr { ticket, value: true };
            let set_option = ListenAction::SetOption { ticket, setting: platform.socket_setting() };
            let listen = ListenAction::Listen { socket, backlog: 1024 };
            let set_listener = ListenAction::SetListenerOption {
                listener,
                setting: platform.fast_open(),
            };
            let done = ListenStep::<S, N, L, E>::Return(
                Ok(TfoListener { platform, inner: listener }),
            );
            &&& TfoListener::spec_resume(platform, created) == ListenStep::<S, N, L, E>::Do(
                if platform == Platform::Windows {
                    set_option
                } else {
                    set_reuse
                },
            )
            &&& TfoListener::spec_resume(platform, reuse_set) == ListenStep::<S, N, L, E>::Do(
                set_option,
            )
            &&& TfoListener::spec_resume(platform, option_set) == ListenStep::<S, N, L, E>::Do(
                ListenAction::Bind(ticket),
            )
            &&& TfoListener::spec_resume(platform, bound) == ListenStep::<S, N, L, E>::Do(listen)
            &&& TfoListener::spec_resume(platform, listening) == (if platform == Platform::Macos {
                ListenStep::<S, N, L, E>::Do(set_listener)
            } else {
                done
            })
            &&& TfoListener::spec_resume(platform, listener_set) == done
        }),
{
}

/// A listener that a setup ends with, however the setup began, has TFO enabled: the option was set to
/// the value of the platform, with success, on this listener, or on the socket that was then bound and
/// made to listen to become it.
pub proof fn law_listener_has_fast_open<S, N, L, E>(
    platform: Platform,
    start: ListenStep<S, N, L, E>,
    replies: Seq<ListenEvent<S, N, L, E>>,
    listener: TfoListener<L>,
)
    requires
        is_start(platform, start),
        is_setup(platform, start, replies),
        listen_run(platform, start, replies) == ListenStep::<S, N, L, E>::Return(Ok(listener)),
    ensures
        listener.platform == platform,
        enabled_on_listener(platform, start, replies, listener.inner, replies.len() - 1)
            || enabled_on_socket(platform, start, replies, listener.inner, replies.len() - 3),
{
    reveal_with_fuel(is_setup, 4);
    let n = replies.len() as int;
    let listened = replies.drop_last();
    assert(replies.take(n - 1) =~= listened);
    if replies.last() is Listening {
        let bound = listened.drop_last();
        let prepared = bound.drop_last();
        assert(replies.take(n - 2) =~= bound);
        assert(replies.take(n - 3) =~= prepared);
    }
}

/// The step after a reply with success in the setup of a listener, on every platform: the socket that was
/// created gets `SO_REUSEADDR`, except on Windows, where that would let others take its address over; then
/// its TFO option; then it is bound to the address; then it listens. A listener that has no TFO option by
/// then gets it, and that is all.
pub proof fn law_setup_goes_on<S, N, L, E>(platform: Platform, event: ListenEvent<S, N, L, E>)
    requires
        carried(event) is None,
    ensures
        match TfoListener::spec_resume(platform, event) {
            ListenStep::Do(ListenAction::SetReuseAddr { ticket, value }) => {
                &&& platform != Platform::Windows
                &&& event matches ListenEvent::SocketCreated { addr, result: Ok(socket) }
                &&& ticket.socket == socket
                &&& ticket.addr == addr
                &&& value
            },
            ListenStep::Do(ListenAction::SetOption { ticket, setting }) => {
                &&& match event {
                    ListenEvent::SocketCreated { addr, result: Ok(socket) } => {
                        &&& platform == Platform::Windows
                        &&& ticket.socket == socket
                        &&& ticket.addr == addr
                    },
                    ListenEvent::ReuseAddrSet { ticket: t, .. } => t == ticket,
                    _ => false,
                }
                &&& setting.option == (if platform == Platform::Macos {
                    SocketOption::FastOpenForceEnable
                } else {
                    SocketOption::FastOpen
                })
                &&& setting.value == (if platform == Platform::Linux {
                    1024i32
                } else {
                    1i32
                })
            },
            ListenStep::Do(ListenAction::Bind(ticket)) => {
                &&& event matches ListenEvent::OptionSet { ticket: t, .. }
                &&& t == ticket
            },
            ListenStep::Do(ListenAction::Listen { socket, backlog }) => {
                &&& event matches ListenEvent::Bound { ticket, .. }
                &&& ticket.socket == socket
                &&& backlog == 1024
            },
            ListenStep::Do(ListenAction::Register(listener)) => {
                &&& event matches ListenEvent::NonblockingSet { listener: n, .. }
                &&& n == listener
            },
            ListenStep::Do(ListenAction::SetListenerOption { listener, setting }) => {
                &&& match event {
                    ListenEvent::Listening(Ok(l)) => platform == Platform::Macos && l == listener,
                    ListenEvent::Registered(Ok(l)) => l == listener,
                    _ => false,
                }
                &&& setting.option == SocketOption::FastOpen
                &&& setting.value == (if platform == Platform::Linux {
                    1024i32
                } else {
                    1i32
                })
            },
            ListenStep::Return(Ok(made)) => {
                &&& made.platform == platform
                &&& match event {
                    ListenEvent::Listening(Ok(l)) => platform != Platform::Macos && l == made.inner,
                    ListenEvent::ListenerOptionSet { listener, .. } => listener == made.inner,
                    _ => false,
                }
            },
            _ => false,
        },
{
}

/// On macOS a socket that could not be given `TCP_FASTOPEN_FORCE_ENABLE` is bound all the same.
pub proof fn law_forcing_is_optional<S, N, L, E>(ticket: ListenTicket<S>, error: E)
    ensures
        TfoListener::spec_resume(
            Platform::Macos,
            ListenEvent::<S, N, L, E>::OptionSet { ticket, result: Err(error) },
        ) matches ListenStep::Do(ListenAction::Bind(t)) && t == ticket,
{
}

/// A listener that exists, and that the event loop knows, gets the TFO option, with the value of its
/// platform, and that is how its setup begins.
pub proof fn law_existing_listeners_get_the_option<S, N, L, E>(platform: Platform, listener: L)
    ensures
        TfoListener::<L>::spec_from_tokio::<S, N, E>(platform, listener) matches ListenStep::Do(
            ListenAction::SetListenerOption { listener: l, setting },
        ) && {
            &&& l == listener
            &&& setting.option == SocketOption::FastOpen
            &&& setting.value == (if platform == Platform::Linux {
                1024i32
            } else {
                1i32
            })
        },
{
}

/// What a listener accepted is handed on as it came: a connected stream of the platform with the address
/// of its peer, an error, or nothing yet.
pub proof fn law_accepting_keeps_the_answer<S, C, W, O, E>(
    platform: Platform,
    answer: Poll<Result<(C, SocketAddr), E>>,
)
    ensures
        match TfoListener::<C>::accepted::<S, C, W, O, E>(platform, answer) {
            Poll::Pending => answer is Pending,
            Poll::Ready(Err(error)) => {
                &&& answer matches Poll::Ready(Err(e))
                &&& e == error
            },
            Poll::Ready(Ok((stream, peer_addr))) => {
                &&& answer matches Poll::Ready(Ok((c, p)))
                &&& p == peer_addr
                &&& stream.usable()
                &&& stream.inner.platform() == platform
                &&& stream.inner.phase() == Phase::Connected
                &&& stream.inner.resource() matches TcpStreamOption::Connected(s)
                &&& s == c
            },
        },
{
}

/// How many actions a setup has before it at most.
spec fn actions_left<S, N, L, E>(step: ListenStep<S, N, L, E>) -> int {
    match step {
        ListenStep::Do(ListenAction::NewSocket { .. }) => 6,
        ListenStep::Do(ListenAction::SetReuseAddr { .. }) => 5,
        ListenStep::Do(ListenAction::SetOption { .. }) => 4,
        ListenStep::Do(ListenAction::Bind(_)) => 3,
        ListenStep::Do(ListenAction::Listen { .. }) => 2,
        ListenStep::Do(ListenAction::SetNonblocking(_)) => 3,
        ListenStep::Do(ListenAction::Register(_)) => 2,
        ListenStep::Do(ListenAction::SetListenerOption { .. }) => 1,
        ListenStep::Return(_) => 0,
    }
}

/// The setup of a listener takes no more than six actions.
pub proof fn law_setup_ends<S, N, L, E>(
    platform: Platform,
    start: ListenStep<S, N, L, E>,
    replies: Seq<ListenEvent<S, N, L, E>>,
)
    requires
        is_start(platform, start),
        is_setup(platform, start, replies),
    ensures
        replies.len() <= 6,
        replies.len() == 6 ==> listen_run(platform, start, replies) is Return,
{
    lemma_setup_ends(platform, start, replies);
}

/// Every reply brings a setup closer to its end.
proof fn lemma_setup_ends<S, N, L, E>(
    platform: Platform,
    start: ListenStep<S, N, L, E>,
    replies: Seq<ListenEvent<S, N, L, E>>,
)
    requires
        is_setup(platform, start, replies),
    ensures
        0 <= actions_left(listen_run(platform, start, replies)),
        actions_left(listen_run(platform, start, replies)) + replies.len()
            <= actions_left(start),
    decreases replies.len(),
{
    if replies.len() > 0 {
        lemma_setup_ends(platform, start, replies.drop_last());
    }
}

/// It is the socket that was created that gets the options, is bound and listens; it is bound to the
/// address that the listener is for, and to no other; and the listener that comes of it is the one that
/// listening gave.
pub proof fn law_bind_keeps_target<S, N, L, E>(
    platform: Platform,
    addr: SocketAddr,
    socket: S,
    replies: Seq<ListenEvent<S, N, L, E>>,
)
    requires
        is_setup(
            platform,
            TfoListener::<L>::spec_resume(
                platform,
                ListenEvent::<S, N, L, E>::SocketCreated { addr, result: Ok(socket) },
            ),
            replies,
        ),
    ensures
        ({
            let start = TfoListener::<L>::spec_resume(
                platform,
                ListenEvent::<S, N, L, E>::SocketCreated { addr, result: Ok(socket) },
            );
            let target = ListenTicket { socket, addr };
            match listen_run(platform, start, replies) {
                ListenStep::Do(action) => match action {
                    ListenAction::SetReuseAddr { ticket, value } => ticket == target && value,
                    ListenAction::SetOption { ticket, .. } => ticket == target,
                    ListenAction::Bind(ticket) => ticket == target,
                    ListenAction::Listen { socket: s, backlog } => s == socket && backlog == 1024,
                    ListenAction::SetListenerOption { listener, .. } => replies.contains(
                        ListenEvent::Listening(Ok(listener)),
                    ),
                    _ => false,
                },
                ListenStep::Return(Ok(listener)) => replies.contains(
                    ListenEvent::Listening(Ok(listener.inner)),
                ),
                ListenStep::Return(Err(_)) => true,
            }
        }),
    decreases replies.len(),
{
    if replies.len() > 0 {
        let before = replies.drop_last();
        law_bind_keeps_target(platform, addr, socket, before);
        assert(replies[replies.len() - 1] == replies.last());
        assert forall|event| before.contains(event) implies replies.contains(event) by {
            let i = choose|i: int| 0 <= i < before.len() && before[i] == event;
            assert(replies[i] == event);
        }
    }
}

/// A stream that a listener accepted is connected: it is written to like any other, with nothing in
/// between.
pub proof fn law_accepted_streams_are_connected<'b, S, C, W, O, E>(
    platform: Platform,
    stream: C,
    peer_addr: SocketAddr,
    buf: &'b [u8],
    codes: ErrorCodes,
)
    ensures
        ({
            let accepted = Poll::Ready(Ok::<(C, SocketAddr), E>((stream, peer_addr)));
            &&& TfoListener::<C>::accepted::<S, C, W, O, E>(platform, accepted) matches Poll::Ready(
                Ok((tfo, peer)),
            )
            &&& peer == peer_addr
            &&& tfo.usable()
            &&& tfo.inner.phase() == Phase::Connected
            &&& tfo.inner.resource()->Connected_0 == stream
            &&& tfo.inner.spec_poll_write::<E>(buf, WriteEvent::Start, codes) == (
                tfo.inner,
                WriteStep::<S, W, O, E> { wake: None, action: WriteAction::PollWrite(buf) },
            )
        }),
{
}

} // verus!
