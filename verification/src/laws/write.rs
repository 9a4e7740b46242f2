//! Laws of reading and writing.

use vstd::prelude::*;

use crate::io::{ErrorCodes, ErrorKind, Failure, Poll};
use crate::sys::platform::{Phase, Platform, SysTcpStream};
use crate::sys::{
    unix, windows, AfterRegister, FlushAction, PeerAddr, ReadAction, WriteAction, WriteEvent,
    WriteStep,
};

verus! {

/// Whether `event` is an answer to `action`. Resources that were handed out come back with it.
pub open spec fn answers<'b, S, C, W, O, E>(
    action: WriteAction<'b, S, W, O, E>,
    event: WriteEvent<S, C, W, O, E>,
) -> bool {
    match action {
        WriteAction::PollWrite(_) => false,
        WriteAction::PollWriteReady => event is WriteReady,
        WriteAction::TakeError { sent } => event matches WriteEvent::SocketError { sent: s, .. }
            && s == sent,
        WriteAction::SendTo { .. } => event is SentTo,
        WriteAction::ConnectEx { .. } => event is ConnectExReturned,
        WriteAction::UpdateContext { socket, handover } => event matches WriteEvent::ContextUpdated {
            socket: s,
            handover: h,
            ..
        } && s == socket && h == handover,
        WriteAction::Register { handover, .. } => event matches WriteEvent::Registered {
            handover: h,
            ..
        } && h == handover,
        WriteAction::TrySend(_) => event is TriedSend,
        WriteAction::TryConnectResult => event is ConnectResult,
        WriteAction::Return(_) => false,
    }
}

/// The number of bytes that an event reports as sent.
pub open spec fn reported<S, C, W, O, E>(event: WriteEvent<S, C, W, O, E>) -> Option<usize> {
    match event {
        WriteEvent::SentTo(Ok(n)) => Some(n),
        WriteEvent::ConnectExReturned { result: Ok(n), .. } => Some(n as usize),
        WriteEvent::TriedSend { result: Ok(n), .. } => Some(n),
        WriteEvent::ConnectResult(Ok(n)) => Some(n),
        _ => None,
    }
}

/// The error that an event carries.
pub open spec fn carried<S, C, W, O, E>(event: WriteEvent<S, C, W, O, E>) -> Option<E> {
    match event {
        WriteEvent::WriteReady(Poll::Ready(Err(error))) => Some(error),
        WriteEvent::SocketError { result: Err(error), .. } => Some(error),
        WriteEvent::SocketError { result: Ok(Some(error)), .. } => Some(error),
        WriteEvent::SentTo(Err(failure)) => Some(failure.error),
        WriteEvent::ConnectExReturned { result: Err(failure), .. } => Some(failure.error),
        WriteEvent::ContextUpdated { result: Err(error), .. } => Some(error),
        WriteEvent::Registered { result: Err(error), .. } => Some(error),
        WriteEvent::TriedSend { result: Err(failure), .. } => Some(failure.error),
        WriteEvent::ConnectResult(Err(failure)) => Some(failure.error),
        _ => None,
    }
}

/// Whether the error that an event carries is no end to a write: the connection is being made, or
/// the stream is not ready, or (on Windows, where a pending error is fetched only to see whether that
/// is possible) there was one before.
pub open spec fn harmless<S, C, W, O, E>(
    platform: Platform,
    event: WriteEvent<S, C, W, O, E>,
    codes: ErrorCodes,
) -> bool {
    match event {
        WriteEvent::SentTo(Err(failure)) => failure.code == Some(codes.in_progress),
        WriteEvent::ConnectExReturned { result: Err(failure), .. } => failure.code == Some(
            windows::ERROR_IO_PENDING,
        ),
        WriteEvent::TriedSend { result: Err(failure), .. } => failure.kind == ErrorKind::WouldBlock,
        WriteEvent::ConnectResult(Err(failure)) => failure.kind == ErrorKind::WouldBlock,
        WriteEvent::SocketError { result: Ok(_), .. } => platform == Platform::Windows,
        _ => false,
    }
}

/// Phases in the order in which a connection goes through them.
pub open spec fn rank(phase: Phase) -> int {
    match phase {
        Phase::FirstWrite => 0,
        Phase::Connecting => 1,
        Phase::Connected => 2,
    }
}

/// Every answer to what a write asks for is one that the stream can go on with, and the stream stays
/// well-formed: a write never comes upon a state that it has no answer to.
pub proof fn law_answers_are_accepted<'b, S, C, W, O, E>(
    stream: SysTcpStream<S, C, W, O>,
    buf: &'b [u8],
    event: WriteEvent<S, C, W, O, E>,
    codes: ErrorCodes,
    reply: WriteEvent<S, C, W, O, E>,
)
    requires
        stream.wf(),
        stream.accepts(event),
    ensures
        ({
            let (next, step) = stream.spec_poll_write(buf, event, codes);
            &&& next.wf()
            &&& next.platform() == stream.platform()
            &&& answers(step.action, reply) ==> next.accepts(reply)
        }),
{
}

/// A connection never falls back behind a phase that it has reached.
pub proof fn law_phase_never_goes_back<'b, S, C, W, O, E>(
    stream: SysTcpStream<S, C, W, O>,
    buf: &'b [u8],
    event: WriteEvent<S, C, W, O, E>,
    codes: ErrorCodes,
)
    requires
        stream.wf(),
        stream.accepts(event),
    ensures
        rank(stream.phase()) <= rank(stream.spec_poll_write(buf, event, codes).0.phase()),
{
}

/// Once there is a connection, a write changes nothing about the stream: it is a write to the
/// connected stream, of the same data.
pub proof fn law_connected_writes_pass_through<'b, S, C, W, O, E>(
    stream: SysTcpStream<S, C, W, O>,
    buf: &'b [u8],
    event: WriteEvent<S, C, W, O, E>,
    codes: ErrorCodes,
)
    requires
        stream.wf(),
        stream.accepts(event),
        stream.phase() == Phase::Connected,
    ensures
        event is Start,
        stream.spec_poll_write(buf, event, codes) == (
            stream,
            WriteStep::<S, W, O, E> { wake: None, action: WriteAction::PollWrite(buf) },
        ),
{
}

/// An error that is no end to the write goes on; any other ends it, as it came, and leaves the stream
/// as it was.
pub proof fn law_errors_surface<'b, S, C, W, O, E>(
    stream: SysTcpStream<S, C, W, O>,
    buf: &'b [u8],
    event: WriteEvent<S, C, W, O, E>,
    codes: ErrorCodes,
)
    requires
        stream.wf(),
        stream.accepts(event),
    ensures
        ({
            let (next, step) = stream.spec_poll_write(buf, event, codes);
            let fails = carried(event) is Some && !harmless(stream.platform(), event, codes);
            &&& fails <==> (step.action matches WriteAction::Return(Poll::Ready(Err(_))))
            &&& fails ==> {
                &&& step.action == WriteAction::<S, W, O, E>::Return(
                    Poll::Ready(Err(carried(event)->0)),
                )
                &&& step.wake is None
                &&& next == stream
            }
        }),
{
}

/// A write is pending only if the connected stream is not ready to be written to. The stream is left
/// as it was, and the next write begins by asking again.
pub proof fn law_pending_means_not_ready<'b, S, C, W, O, E>(
    stream: SysTcpStream<S, C, W, O>,
    buf: &'b [u8],
    event: WriteEvent<S, C, W, O, E>,
    codes: ErrorCodes,
    next_buf: &'b [u8],
)
    requires
        stream.wf(),
        stream.accepts(event),
    ensures
        ({
            let (next, step) = stream.spec_poll_write(buf, event, codes);
            let pending = event == WriteEvent::<S, C, W, O, E>::WriteReady(Poll::Pending);
            &&& pending <==> step.action == WriteAction::<S, W, O, E>::Return(Poll::Pending)
            &&& pending ==> next == stream && step.wake is None
            &&& pending ==> next.spec_poll_write::<E>(next_buf, WriteEvent::Start, codes) == (
                next,
                WriteStep::<S, W, O, E> { wake: None, action: WriteAction::PollWriteReady },
            )
        }),
{
}

/// The data of a connection request that Windows sends in the background is not sent again: until the
/// connection stands, no write hands any data to the system, or leaves it to the connected stream.
pub proof fn law_background_data_is_not_sent_again<'b, S, C, W, O, E>(
    stream: SysTcpStream<S, C, W, O>,
    buf: &'b [u8],
    event: WriteEvent<S, C, W, O, E>,
    codes: ErrorCodes,
)
    requires
        stream.wf(),
        stream.accepts(event),
        stream.platform() == Platform::Windows,
        stream.phase() == Phase::Connecting,
    ensures
        match stream.spec_poll_write(buf, event, codes).1.action {
            WriteAction::PollWriteReady => true,
            WriteAction::TryConnectResult => true,
            WriteAction::TakeError { .. } => true,
            WriteAction::Return(_) => true,
            _ => false,
        },
{
}

/// How much a write has before it at most, if the stream is never found not to be ready after all.
pub open spec fn distance<'b, S, C, W, O, E>(
    stream: SysTcpStream<S, C, W, O>,
    action: WriteAction<'b, S, W, O, E>,
) -> int {
    let phases = 2 - rank(stream.phase());
    let actions: int = match action {
        WriteAction::SendTo { .. } | WriteAction::ConnectEx { .. } => 5,
        WriteAction::UpdateContext { .. } => 4,
        WriteAction::Register { .. } | WriteAction::PollWriteReady => 3,
        WriteAction::TrySend(_) | WriteAction::TryConnectResult => 2,
        WriteAction::TakeError { .. } => 1,
        WriteAction::PollWrite(_) | WriteAction::Return(_) => 0,
    };
    6 * phases + actions
}

/// Whether an event says that the stream was not ready after all, and the same has to be tried again.
pub open spec fn is_retry<S, C, W, O, E>(event: WriteEvent<S, C, W, O, E>) -> bool {
    match event {
        WriteEvent::TriedSend { connecting, result: Err(failure) } => {
            &&& failure.kind == ErrorKind::WouldBlock
            &&& !connecting
        },
        WriteEvent::ConnectResult(Err(failure)) => failure.kind == ErrorKind::WouldBlock,
        _ => false,
    }
}

/// A write comes closer to its end with every step, unless the stream was not ready after all: in
/// that case it goes back to waiting for the stream to be ready, in the same phase.
pub proof fn law_writes_make_progress<'b, S, C, W, O, E>(
    stream: SysTcpStream<S, C, W, O>,
    buf: &'b [u8],
    action: WriteAction<'b, S, W, O, E>,
    event: WriteEvent<S, C, W, O, E>,
    codes: ErrorCodes,
)
    requires
        stream.wf(),
        stream.accepts(event),
        answers(action, event),
    ensures
        ({
            let (next, step) = stream.spec_poll_write(buf, event, codes);
            if is_retry(event) {
                &&& next == stream
                &&& step.action == WriteAction::<S, W, O, E>::PollWriteReady
            } else {
                0 <= distance(next, step.action) < distance(stream, action)
            }
        }),
{
}

/// A write of `buf` that got these replies, one for each of its actions: the stream after it, and the
/// last step.
pub open spec fn write_run<'b, S, C, W, O, E>(
    stream: SysTcpStream<S, C, W, O>,
    buf: &'b [u8],
    replies: Seq<WriteEvent<S, C, W, O, E>>,
    codes: ErrorCodes,
) -> (SysTcpStream<S, C, W, O>, WriteStep<'b, S, W, O, E>)
    decreases replies.len(),
{
    if replies.len() == 0 {
        stream.spec_poll_write(buf, WriteEvent::Start, codes)
    } else {
        write_run(stream, buf, replies.drop_last(), codes).0.spec_poll_write(
            buf,
            replies.last(),
            codes,
        )
    }
}

/// Each of the replies answers the action before it.
pub open spec fn is_write<'b, S, C, W, O, E>(
    stream: SysTcpStream<S, C, W, O>,
    buf: &'b [u8],
    replies: Seq<WriteEvent<S, C, W, O, E>>,
    codes: ErrorCodes,
) -> bool
    decreases replies.len(),
{
    replies.len() > 0 ==> {
        &&& is_write(stream, buf, replies.drop_last(), codes)
        &&& answers(
            write_run(stream, buf, replies.drop_last(), codes).1.action,
            replies.last(),
        )
    }
}

/// The numbers of bytes that the replies report as sent.
pub open spec fn reports<S, C, W, O, E>(replies: Seq<WriteEvent<S, C, W, O, E>>) -> Seq<usize>
    decreases replies.len(),
{
    if replies.len() == 0 {
        Seq::empty()
    } else {
        match reported(replies.last()) {
            Some(n) => reports(replies.drop_last()).push(n),
            None => reports(replies.drop_last()),
        }
    }
}

/// The number of bytes that a write in front of this action knows to have been sent.
pub open spec fn known_sent<'b, S, W, O, E>(action: WriteAction<'b, S, W, O, E>) -> Option<usize> {
    match action {
        WriteAction::TakeError { sent } => sent,
        WriteAction::UpdateContext { handover, .. } => match handover.then_do {
            AfterRegister::Sent(n) => Some(n),
            _ => None,
        },
        WriteAction::Register { handover, .. } => match handover.then_do {
            AfterRegister::Sent(n) => Some(n),
            _ => None,
        },
        WriteAction::Return(Poll::Ready(Ok(n))) => Some(n),
        _ => None,
    }
}

/// The tasks that the steps of a write wake.
pub open spec fn woken<'b, S, C, W, O, E>(
    stream: SysTcpStream<S, C, W, O>,
    buf: &'b [u8],
    replies: Seq<WriteEvent<S, C, W, O, E>>,
    codes: ErrorCodes,
) -> Seq<W>
    decreases replies.len(),
{
    let before = if replies.len() == 0 {
        Seq::empty()
    } else {
        woken(stream, buf, replies.drop_last(), codes)
    };
    match write_run(stream, buf, replies, codes).1.wake {
        Some(waker) => before.push(waker),
        None => before,
    }
}

/// Whatever the replies are, a write of a usable stream can go on with each of them, and leaves the
/// stream well-formed: none of the states is reached that a stream cannot be in.
pub proof fn law_write_is_never_stuck<'b, S, C, W, O, E>(
    stream: SysTcpStream<S, C, W, O>,
    buf: &'b [u8],
    replies: Seq<WriteEvent<S, C, W, O, E>>,
    codes: ErrorCodes,
    reply: WriteEvent<S, C, W, O, E>,
)
    requires
        stream.usable(),
        is_write(stream, buf, replies, codes),
        answers(write_run(stream, buf, replies, codes).1.action, reply),
    ensures
        write_run(stream, buf, replies, codes).0.wf(),
        write_run(stream, buf, replies, codes).0.accepts(reply),
    decreases replies.len(),
{
    if replies.len() > 0 {
        law_write_is_never_stuck(stream, buf, replies.drop_last(), codes, replies.last());
    }
}

/// What holds after every step of a write.
proof fn lemma_write_run<'b, S, C, W, O, E>(
    stream: SysTcpStream<S, C, W, O>,
    buf: &'b [u8],
    replies: Seq<WriteEvent<S, C, W, O, E>>,
    codes: ErrorCodes,
)
    requires
        stream.usable(),
        is_write(stream, buf, replies, codes),
    ensures
        ({
            let (end, step) = write_run(stream, buf, replies, codes);
            let failed = step.action matches WriteAction::Return(Poll::Ready(Err(_)));
            &&& end.wf()
            &&& end.platform() == stream.platform()
            &&& rank(stream.phase()) <= rank(end.phase())
            &&& !failed ==> reports(replies) == (match known_sent(step.action) {
                Some(n) => seq![n],
                None => Seq::<usize>::empty(),
            })
            &&& reports(replies).len() <= 1
            &&& end.resource() is Empty ==> failed || step.action is UpdateContext
                || step.action is Register
        }),
    decreases replies.len(),
{
    if replies.len() > 0 {
        lemma_write_run(stream, buf, replies.drop_last(), codes);
        law_write_is_never_stuck(stream, buf, replies.drop_last(), codes, replies.last());
    }
}

/// Of all that a write does, at most one thing is reported to have sent data. A write that reports a
/// number of bytes reports what that one has sent, and has a connection. Nothing has been reported to
/// have sent data in a write that is pending, or that is left to the connected stream.
pub proof fn law_data_is_sent_once<'b, S, C, W, O, E>(
    stream: SysTcpStream<S, C, W, O>,
    buf: &'b [u8],
    replies: Seq<WriteEvent<S, C, W, O, E>>,
    codes: ErrorCodes,
)
    requires
        stream.usable(),
        is_write(stream, buf, replies, codes),
    ensures
        ({
            let (end, step) = write_run(stream, buf, replies, codes);
            &&& reports(replies).len() <= 1
            &&& (step.action matches WriteAction::Return(Poll::Ready(Ok(n))) ==> {
                &&& reports(replies) == seq![n]
                &&& end.phase() == Phase::Connected
            })
            &&& (step.action is PollWrite ==> {
                &&& reports(replies) == Seq::<usize>::empty()
                &&& end.phase() == Phase::Connected
                &&& step.action->PollWrite_0 == buf
            })
            &&& (step.action == WriteAction::<S, W, O, E>::Return(Poll::Pending) ==> reports(replies)
                == Seq::<usize>::empty())
        }),
{
    lemma_write_run(stream, buf, replies, codes);
    if replies.len() > 0 {
        lemma_write_run(stream, buf, replies.drop_last(), codes);
        law_write_is_never_stuck(stream, buf, replies.drop_last(), codes, replies.last());
    }
}

/// Over a whole write, a connection never falls back behind a phase that it has reached.
pub proof fn law_write_moves_forward<'b, S, C, W, O, E>(
    stream: SysTcpStream<S, C, W, O>,
    buf: &'b [u8],
    replies: Seq<WriteEvent<S, C, W, O, E>>,
    codes: ErrorCodes,
)
    requires
        stream.usable(),
        is_write(stream, buf, replies, codes),
    ensures
        rank(stream.phase()) <= rank(write_run(stream, buf, replies, codes).0.phase()),
{
    lemma_write_run(stream, buf, replies, codes);
}

/// Until the socket of a stream is handed out to be registered, a write leaves all of it as it is: the
/// socket, the address to connect to, which `peer_addr` gives, and the task that waits to read. What
/// is handed out is that socket.
pub proof fn law_target_is_kept<'b, S, C, W, O, E>(
    stream: SysTcpStream<S, C, W, O>,
    buf: &'b [u8],
    replies: Seq<WriteEvent<S, C, W, O, E>>,
    codes: ErrorCodes,
)
    requires
        stream.usable(),
        stream.resource() is Connecting,
        is_write(stream, buf, replies, codes),
    ensures
        ({
            let (end, step) = write_run(stream, buf, replies, codes);
            &&& (end.resource() is Connecting ==> {
                &&& end == stream
                &&& end.resource().spec_peer_addr() == PeerAddr::<C>::Known(
                    stream.resource()->addr,
                )
            })
            &&& (step.action matches WriteAction::SendTo { addr, payload, .. } ==> {
                &&& addr == stream.resource()->addr
                &&& payload == buf
            })
            &&& (step.action matches WriteAction::ConnectEx { addr, payload } ==> {
                &&& addr == stream.resource()->addr
                &&& payload == buf
            })
            &&& (step.action matches WriteAction::Register { socket, .. } ==> socket
                == stream.resource()->socket)
            &&& (step.action matches WriteAction::UpdateContext { socket, .. } ==> socket
                == stream.resource()->socket)
        }),
    decreases replies.len(),
{
    if replies.len() > 0 {
        law_target_is_kept(stream, buf, replies.drop_last(), codes);
        lemma_write_run(stream, buf, replies.drop_last(), codes);
        law_write_is_never_stuck(stream, buf, replies.drop_last(), codes, replies.last());
    }
}

/// Reply number `i` of a write is that the event loop has taken `socket` in, as `registered`.
pub open spec fn registers<'b, S, C, W, O, E>(
    stream: SysTcpStream<S, C, W, O>,
    buf: &'b [u8],
    replies: Seq<WriteEvent<S, C, W, O, E>>,
    codes: ErrorCodes,
    socket: S,
    registered: C,
    i: int,
) -> bool {
    &&& 0 <= i < replies.len()
    &&& (write_run(stream, buf, replies.take(i), codes).1.action matches WriteAction::Register {
        socket: s,
        ..
    } && s == socket)
    &&& (replies[i] matches WriteEvent::Registered { result: Ok(c), .. } && c == registered)
}

/// A write does not exchange what a stream stands for. A stream that the event loop knows at the start
/// is the same at the end. One that the event loop comes to know during the write is what registering
/// the socket of the stream has given.
pub proof fn law_stream_is_kept<'b, S, C, W, O, E>(
    stream: SysTcpStream<S, C, W, O>,
    buf: &'b [u8],
    replies: Seq<WriteEvent<S, C, W, O, E>>,
    codes: ErrorCodes,
)
    requires
        stream.usable(),
        is_write(stream, buf, replies, codes),
    ensures
        ({
            let end = write_run(stream, buf, replies, codes).0.resource();
            &&& stream.resource() is Connected ==> end == stream.resource()
            &&& stream.resource() is Connecting && end is Connected ==> exists|i: int| #[trigger]
                registers(
                    stream,
                    buf,
                    replies,
                    codes,
                    stream.resource()->socket,
                    end->Connected_0,
                    i,
                )
        }),
    decreases replies.len(),
{
    if replies.len() > 0 {
        let n = replies.len() - 1;
        let before = replies.drop_last();
        law_stream_is_kept(stream, buf, before, codes);
        lemma_write_run(stream, buf, before, codes);
        law_write_is_never_stuck(stream, buf, before, codes, replies.last());
        if stream.resource() is Connecting {
            law_target_is_kept(stream, buf, before, codes);
            let socket = stream.resource()->socket;
            let earlier = write_run(stream, buf, before, codes).0.resource();
            let end = write_run(stream, buf, replies, codes).0.resource();
            if end is Connected {
                if earlier is Connected {
                    let c = earlier->Connected_0;
                    let i = choose|i: int| registers(stream, buf, before, codes, socket, c, i);
                    assert(before.take(i) =~= replies.take(i));
                    assert(registers(stream, buf, replies, codes, socket, c, i));
                } else {
                    assert(replies.take(n) =~= before);
                    assert(registers(stream, buf, replies, codes, socket, end->Connected_0, n));
                }
            }
        }
    }
}

/// Whether an event says that a socket that was handed out did not become a registered stream.
pub open spec fn loses_socket<S, C, W, O, E>(event: WriteEvent<S, C, W, O, E>) -> bool {
    match event {
        WriteEvent::ContextUpdated { result: Err(_), .. } => true,
        WriteEvent::Registered { result: Err(_), .. } => true,
        _ => false,
    }
}

/// A stream is without its socket while the socket is handed out to be registered, and for good if that
/// has failed, or setting its context before. There is no other way to lose it.
pub proof fn law_socket_is_lost_only_in_registration<'b, S, C, W, O, E>(
    stream: SysTcpStream<S, C, W, O>,
    buf: &'b [u8],
    replies: Seq<WriteEvent<S, C, W, O, E>>,
    codes: ErrorCodes,
)
    requires
        stream.usable(),
        is_write(stream, buf, replies, codes),
    ensures
        ({
            let (end, step) = write_run(stream, buf, replies, codes);
            &&& end.usable() <==> !(end.resource() is Empty)
            &&& end.resource() is Empty <==> {
                ||| step.action is UpdateContext
                ||| step.action is Register
                ||| replies.len() > 0 && loses_socket(replies.last())
            }
        }),
{
    lemma_write_run(stream, buf, replies, codes);
    if replies.len() > 0 {
        lemma_write_run(stream, buf, replies.drop_last(), codes);
        law_write_is_never_stuck(stream, buf, replies.drop_last(), codes, replies.last());
    }
}

/// What the first send on a stream that is to carry its connection request has come to decides the
/// write. `describe` is how an error is described to the stream. Data that was sent is reported, with a
/// connection. A request without data goes on as a handshake, after which the data is written. A stream
/// that was not ready after all is tried again. Any other error comes back.
pub proof fn law_first_send_decides<'b, S, C, W, O, E>(
    stream: SysTcpStream<S, C, W, O>,
    buf: &'b [u8],
    result: Result<usize, Failure<E>>,
    codes: ErrorCodes,
    would_block: E,
    describe: spec_fn(E) -> Failure<E>,
)
    requires
        stream.wf(),
        stream.phase() == Phase::FirstWrite,
        stream.resource() is Connected,
        describe(would_block).kind == ErrorKind::WouldBlock,
        result matches Err(failure) ==> describe(failure.error) == failure,
    ensures
        ({
            let (connecting, reported) = unix::spec_outcome(
                unix::spec_first_send(result, codes),
                would_block,
            );
            let event = WriteEvent::<S, C, W, O, E>::TriedSend {
                connecting,
                result: match reported {
                    Ok(n) => Ok(n),
                    Err(error) => Err(describe(error)),
                },
            };
            let (next, step) = stream.spec_poll_write(buf, event, codes);
            &&& stream.accepts(event)
            &&& next.resource() == stream.resource()
            &&& match result {
                Ok(n) => {
                    &&& step.action == WriteAction::<S, W, O, E>::Return(Poll::Ready(Ok(n)))
                    &&& next.phase() == Phase::Connected
                },
                Err(failure) => if failure.code == Some(codes.in_progress) {
                    if stream.platform() == Platform::Macos {
                        &&& step.action is PollWrite
                        &&& step.action->PollWrite_0 == buf
                        &&& next.phase() == Phase::Connected
                    } else {
                        &&& step.action is PollWriteReady
                        &&& next.phase() == Phase::Connecting
                    }
                } else if failure.kind == ErrorKind::WouldBlock {
                    step.action is PollWriteReady && next == stream
                } else {
                    &&& step.action == WriteAction::<S, W, O, E>::Return(
                        Poll::Ready(Err(failure.error)),
                    )
                    &&& next == stream
                },
            }
        }),
{
}

/// What the `ConnectEx` of a stream on Windows that is connecting in the background has come to decides
/// the write. `describe` is how an error is described to the stream. A connection whose context is set
/// has sent the data: what remains is to fetch the pending error of the socket. One that is not over, or
/// was found not to be ready after all, is waited for. Any other error comes back.
pub proof fn law_background_result_decides<'b, S, C, W, O, E>(
    stream: SysTcpStream<S, C, W, O>,
    buf: &'b [u8],
    result: Result<u32, Failure<E>>,
    context: Result<(), E>,
    codes: ErrorCodes,
    would_block: E,
    describe: spec_fn(E) -> Failure<E>,
)
    requires
        stream.wf(),
        stream.platform() == Platform::Windows,
        stream.phase() == Phase::Connecting,
        describe(would_block).kind == ErrorKind::WouldBlock,
        result matches Err(failure) ==> describe(failure.error) == failure,
        context matches Err(error) ==> describe(error).error == error,
    ensures
        ({
            let fetched = windows::spec_outcome(
                windows::spec_overlapped_result(result),
                would_block,
            );
            let reported = match fetched {
                Ok(n) => windows::spec_connect_result(n, context),
                Err(error) => Err(error),
            };
            let event = WriteEvent::<S, C, W, O, E>::ConnectResult(
                match reported {
                    Ok(n) => Ok(n),
                    Err(error) => Err(describe(error)),
                },
            );
            let (next, step) = stream.spec_poll_write(buf, event, codes);
            &&& stream.accepts(event)
            &&& next == stream
            &&& match (result, context) {
                (Ok(n), Ok(_)) => step.action matches WriteAction::TakeError { sent } && sent
                    == Some(n as usize),
                (Ok(_), Err(error)) => if describe(error).kind == ErrorKind::WouldBlock {
                    step.action is PollWriteReady
                } else {
                    step.action == WriteAction::<S, W, O, E>::Return(Poll::Ready(Err(error)))
                },
                (Err(failure), _) => if failure.code == Some(windows::WSA_IO_INCOMPLETE)
                    || failure.kind == ErrorKind::WouldBlock {
                    step.action is PollWriteReady
                } else {
                    step.action == WriteAction::<S, W, O, E>::Return(
                        Poll::Ready(Err(failure.error)),
                    )
                },
            }
        }),
{
}

/// Whether an event says that a connection request went out, with data or without.
pub open spec fn is_request_out<S, C, W, O, E>(
    event: WriteEvent<S, C, W, O, E>,
    codes: ErrorCodes,
) -> bool {
    match event {
        WriteEvent::SentTo(Ok(_)) => true,
        WriteEvent::SentTo(Err(failure)) => failure.code == Some(codes.in_progress),
        WriteEvent::ConnectExReturned { result: Ok(_), .. } => true,
        WriteEvent::ConnectExReturned { result: Err(failure), .. } => failure.code == Some(997i32),
        _ => false,
    }
}

/// The first thing that a write does with a target to connect to is to send the connection request
/// there, together with the buffer. Only the answer that the request went out moves the stream on: before
/// that, its socket is not handed out, neither to get its context nor to be registered.
pub proof fn law_request_comes_first<'b, S, C, W, O, E>(
    stream: SysTcpStream<S, C, W, O>,
    buf: &'b [u8],
    replies: Seq<WriteEvent<S, C, W, O, E>>,
    codes: ErrorCodes,
)
    requires
        stream.usable(),
        stream.resource() is Connecting,
        is_write(stream, buf, replies, codes),
    ensures
        match write_run::<S, C, W, O, E>(stream, buf, Seq::empty(), codes).1.action {
            WriteAction::SendTo { addr, fast_open, payload } => {
                &&& stream.platform() != Platform::Windows
                &&& addr == stream.resource()->addr
                &&& fast_open <==> stream.platform() == Platform::Linux
                &&& payload == buf
            },
            WriteAction::ConnectEx { addr, payload } => {
                &&& stream.platform() == Platform::Windows
                &&& addr == stream.resource()->addr
                &&& payload == buf
            },
            _ => false,
        },
        ({
            let (end, step) = write_run(stream, buf, replies, codes);
            &&& end == stream || (replies.len() > 0 && is_request_out(replies[0], codes))
            &&& step.action is Register || step.action is UpdateContext ==> replies.len() > 0
                && is_request_out(replies[0], codes)
            &&& end == stream && replies.len() > 0 ==> (step.action matches WriteAction::Return(
                Poll::Ready(Err(_)),
            ))
        }),
    decreases replies.len(),
{
    if replies.len() > 0 {
        let before = replies.drop_last();
        law_request_comes_first(stream, buf, before, codes);
        lemma_write_run(stream, buf, before, codes);
        law_write_is_never_stuck(stream, buf, before, codes, replies.last());
        if before.len() > 0 {
            assert(before[0] == replies[0]);
            law_target_is_kept(stream, buf, before, codes);
            law_target_is_kept(stream, buf, replies, codes);
        }
    }
}

/// The task that waits in a stream that is not connected is woken by the write that connects it, once,
/// and nothing else is.
pub proof fn law_waiting_reader_is_woken<'b, S, C, W, O, E>(
    stream: SysTcpStream<S, C, W, O>,
    buf: &'b [u8],
    replies: Seq<WriteEvent<S, C, W, O, E>>,
    codes: ErrorCodes,
)
    requires
        stream.usable(),
        stream.resource() is Connecting,
        is_write(stream, buf, replies, codes),
    ensures
        ({
            let (end, step) = write_run(stream, buf, replies, codes);
            let waiting = stream.resource()->reader;
            &&& woken(stream, buf, replies, codes) == (if end.resource() is Connected
                && waiting is Some {
                seq![waiting->0]
            } else {
                Seq::<W>::empty()
            })
            &&& (step.action matches WriteAction::Register { handover, .. } ==> handover.reader
                == waiting)
            &&& (step.action matches WriteAction::UpdateContext { handover, .. } ==> handover.reader
                == waiting)
        }),
    decreases replies.len(),
{
    reveal_with_fuel(woken, 2);
    law_target_is_kept(stream, buf, replies, codes);
    if replies.len() > 0 {
        law_waiting_reader_is_woken(stream, buf, replies.drop_last(), codes);
        law_target_is_kept(stream, buf, replies.drop_last(), codes);
        lemma_write_run(stream, buf, replies.drop_last(), codes);
        law_write_is_never_stuck(stream, buf, replies.drop_last(), codes, replies.last());
    }
}

/// A read that finds no connection parks its task. The write that connects the stream wakes it, and a
/// read after that goes to the connected stream.
pub proof fn law_parked_reader_is_woken<'b, S, C, W, O, E>(
    stream: SysTcpStream<S, C, W, O>,
    waker: W,
    buf: &'b [u8],
    replies: Seq<WriteEvent<S, C, W, O, E>>,
    codes: ErrorCodes,
    again: W,
)
    requires
        stream.usable(),
        stream.resource() is Connecting,
        ({
            let parked = stream.with_resource(stream.resource().spec_poll_read(waker).0);
            &&& is_write(parked, buf, replies, codes)
            &&& write_run(parked, buf, replies, codes).0.resource() is Connected
        }),
    ensures
        ({
            let (resource, action) = stream.resource().spec_poll_read(waker);
            let parked = stream.with_resource(resource);
            let end = write_run(parked, buf, replies, codes).0.resource();
            &&& action == ReadAction::Park { wake: stream.resource()->reader }
            &&& woken(parked, buf, replies, codes) == seq![waker]
            &&& end.spec_poll_read(again) == (end, ReadAction::<W>::PollRead)
        }),
{
    let parked = stream.with_resource(stream.resource().spec_poll_read(waker).0);
    law_waiting_reader_is_woken(parked, buf, replies, codes);
}

/// A stream that the event loop does not know yet has its first write before it, and nothing to flush
/// or shut down. Once the connection request is out, that is up to the connected stream.
pub proof fn law_nothing_to_flush_before_connection<S, C, W, O>(stream: SysTcpStream<S, C, W, O>)
    requires
        stream.wf(),
    ensures
        stream.phase() != Phase::FirstWrite ==> stream.resource().spec_poll_flush()
            == FlushAction::Delegate,
        !(stream.resource() is Connected) ==> {
            &&& stream.phase() == Phase::FirstWrite
            &&& stream.resource().spec_poll_flush() == FlushAction::Done
        },
{
}

} // verus!
