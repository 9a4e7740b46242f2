//! Laws of the single steps of a write.

use vstd::prelude::*;

use crate::io::{ErrorCodes, ErrorKind, Failure, Poll};
use crate::sys::platform::{Phase, Platform, SysTcpStream};
use crate::sys::windows::TcpStreamState;
use crate::sys::{AfterRegister, Handover, WriteAction, WriteEvent, WriteStep};

verus! {

/// The record of the attempt to connect that a stream has in the background.
pub open spec fn record<S, C, W, O>(stream: SysTcpStream<S, C, W, O>) -> Option<O> {
    match stream {
        SysTcpStream::Windows(inner) => match inner.state {
            TcpStreamState::FastOpenConnecting(overlapped) => Some(overlapped),
            _ => None,
        },
        _ => None,
    }
}

/// The write is over, with this error, and has changed nothing.
pub open spec fn fails_with<'b, S, C, W, O, E>(
    stream: SysTcpStream<S, C, W, O>,
    outcome: (SysTcpStream<S, C, W, O>, WriteStep<'b, S, W, O, E>),
    error: E,
) -> bool {
    &&& outcome.0 == stream
    &&& outcome.1.wake is None
    &&& outcome.1.action matches WriteAction::Return(Poll::Ready(Err(e)))
    &&& e == error
}

/// The write goes on to wait until the stream is ready, and wakes nobody.
pub open spec fn waits<'b, S, W, O, E>(step: WriteStep<'b, S, W, O, E>) -> bool {
    &&& step.wake is None
    &&& step.action is PollWriteReady
}

/// The socket of a stream is out of it, together with the task that waits to read, and with `then_do` to
/// be remembered; nothing else about the stream has changed, and nobody is woken.
pub open spec fn hands_out<S, C, W, O>(
    stream: SysTcpStream<S, C, W, O>,
    next: SysTcpStream<S, C, W, O>,
    socket: S,
    handover: Handover<W, O>,
    then_do: AfterRegister<O>,
) -> bool {
    &&& next.wf()
    &&& next.platform() == stream.platform()
    &&& next.phase() == Phase::FirstWrite
    &&& next.resource() is Empty
    &&& socket == stream.resource()->socket
    &&& handover.reader == stream.resource()->reader
    &&& handover.then_do == then_do
}

/// Whatever a write hands to the system, in whatever step, is the whole of the buffer of the caller.
pub proof fn law_payload_is_the_buffer<'b, S, C, W, O, E>(
    stream: SysTcpStream<S, C, W, O>,
    buf: &'b [u8],
    event: WriteEvent<S, C, W, O, E>,
    codes: ErrorCodes,
)
    requires
        stream.wf(),
        stream.accepts(event),
    ensures
        match stream.spec_poll_write(buf, event, codes).1.action {
            WriteAction::SendTo { payload, .. } => payload == buf,
            WriteAction::ConnectEx { payload, .. } => payload == buf,
            WriteAction::TrySend(payload) => payload == buf,
            WriteAction::PollWrite(payload) => payload == buf,
            _ => true,
        },
{
}

/// A write begins with what the stream is waiting for. One that has a target yet to connect to begins by
/// sending the connection request there, together with the buffer: by `ConnectEx` on Windows and by
/// `sendto` elsewhere, with `MSG_FASTOPEN` on Linux only. One that has a connection begins by writing to
/// it, and one whose connection is being made, or is to be made by the system itself, by asking whether
/// the stream is ready. The stream is left as it is.
pub proof fn law_write_begins<'b, S, C, W, O, E>(
    stream: SysTcpStream<S, C, W, O>,
    buf: &'b [u8],
    codes: ErrorCodes,
)
    requires
        stream.usable(),
    ensures
        ({
            let event = WriteEvent::<S, C, W, O, E>::Start;
            let (next, step) = stream.spec_poll_write(buf, event, codes);
            &&& stream.accepts(event)
            &&& next == stream
            &&& step.wake is None
            &&& match step.action {
                WriteAction::SendTo { addr, fast_open, payload } => {
                    &&& stream.resource() is Connecting
                    &&& stream.platform() != Platform::Windows
                    &&& addr == stream.resource()->addr
                    &&& fast_open <==> stream.platform() == Platform::Linux
                    &&& payload == buf
                },
                WriteAction::ConnectEx { addr, payload } => {
                    &&& stream.resource() is Connecting
                    &&& stream.platform() == Platform::Windows
                    &&& addr == stream.resource()->addr
                    &&& payload == buf
                },
                WriteAction::PollWrite(payload) => {
                    &&& stream.phase() == Phase::Connected
                    &&& payload == buf
                },
                WriteAction::PollWriteReady => {
                    &&& stream.phase() != Phase::Connected
                    &&& stream.resource() is Connected
                },
                _ => false,
            }
        }),
{
}

/// A read before the first write makes no difference to what the write begins with: the connection
/// request goes to the address that the stream was given.
pub proof fn law_read_does_not_redirect_the_write<'b, S, C, W, O, E>(
    stream: SysTcpStream<S, C, W, O>,
    waker: W,
    buf: &'b [u8],
    codes: ErrorCodes,
)
    requires
        stream.usable(),
        stream.resource() is Connecting,
    ensures
        ({
            let start = WriteEvent::<S, C, W, O, E>::Start;
            let parked = stream.with_resource(stream.resource().spec_poll_read(waker).0);
            let (_, step) = parked.spec_poll_write(buf, start, codes);
            &&& parked.usable()
            &&& step == stream.spec_poll_write(buf, start, codes).1
            &&& match step.action {
                WriteAction::SendTo { addr, .. } => addr == stream.resource()->addr,
                WriteAction::ConnectEx { addr, .. } => addr == stream.resource()->addr,
                _ => false,
            }
        }),
{
}

/// A stream without its socket cannot be written to.
pub proof fn law_lost_streams_are_not_written_to<S, C, W, O, E>(stream: SysTcpStream<S, C, W, O>)
    requires
        stream.wf(),
        stream.resource() is Empty,
    ensures
        !stream.accepts(WriteEvent::<S, C, W, O, E>::Start),
{
}

/// While a stream that the event loop knows has no connection, whether it is ready decides. If it is not,
/// the write is pending; if that cannot be told, the error comes back. If it is, the outcome of the
/// connection attempt is fetched where one is under way, and the buffer is sent where none is. The stream
/// is left as it is in any case.
pub proof fn law_readiness_decides<'b, S, C, W, O, E>(
    stream: SysTcpStream<S, C, W, O>,
    buf: &'b [u8],
    ready: Poll<Result<(), E>>,
    codes: ErrorCodes,
)
    requires
        stream.wf(),
        stream.resource() is Connected,
        stream.phase() != Phase::Connected,
    ensures
        ({
            let event = WriteEvent::<S, C, W, O, E>::WriteReady(ready);
            let (next, step) = stream.spec_poll_write(buf, event, codes);
            &&& stream.accepts(event)
            &&& next == stream
            &&& step.wake is None
            &&& match ready {
                Poll::Pending => step.action matches WriteAction::Return(Poll::Pending),
                Poll::Ready(Err(error)) => fails_with(stream, (next, step), error),
                Poll::Ready(Ok(_)) => match step.action {
                    WriteAction::TrySend(payload) => {
                        &&& stream.phase() == Phase::FirstWrite
                        &&& payload == buf
                    },
                    WriteAction::TakeError { sent } => {
                        &&& stream.phase() == Phase::Connecting
                        &&& stream.platform() != Platform::Windows
                        &&& sent is None
                    },
                    WriteAction::TryConnectResult => {
                        &&& stream.phase() == Phase::Connecting
                        &&& stream.platform() == Platform::Windows
                    },
                    _ => false,
                },
            }
        }),
{
}

/// A handshake that is over without an error makes a connection, and the buffer is written to it. An
/// error of the handshake comes back.
pub proof fn law_handshake_decides<'b, S, C, W, O, E>(
    stream: SysTcpStream<S, C, W, O>,
    buf: &'b [u8],
    result: Result<Option<E>, E>,
    codes: ErrorCodes,
)
    requires
        stream.wf(),
        stream.phase() == Phase::Connecting,
        stream.platform() != Platform::Windows,
    ensures
        ({
            let event = WriteEvent::<S, C, W, O, E>::SocketError { sent: None, result };
            let (next, step) = stream.spec_poll_write(buf, event, codes);
            &&& stream.accepts(event)
            &&& match result {
                Ok(None) => {
                    &&& next.wf()
                    &&& next.platform() == stream.platform()
                    &&& next.phase() == Phase::Connected
                    &&& next.resource() == stream.resource()
                    &&& step.wake is None
                    &&& step.action matches WriteAction::PollWrite(payload)
                    &&& payload == buf
                },
                Ok(Some(error)) => fails_with(stream, (next, step), error),
                Err(error) => fails_with(stream, (next, step), error),
            }
        }),
{
}

/// On Windows, data that went out in the background is reported once the pending error of the socket has
/// been fetched, whatever it is, and there is a connection from then on. That it cannot be fetched is an
/// error.
pub proof fn law_background_connection_is_reported<'b, S, C, W, O, E>(
    stream: SysTcpStream<S, C, W, O>,
    buf: &'b [u8],
    n: usize,
    result: Result<Option<E>, E>,
    codes: ErrorCodes,
)
    requires
        stream.wf(),
        stream.phase() == Phase::Connecting,
        stream.platform() == Platform::Windows,
    ensures
        ({
            let event = WriteEvent::<S, C, W, O, E>::SocketError { sent: Some(n), result };
            let (next, step) = stream.spec_poll_write(buf, event, codes);
            &&& stream.accepts(event)
            &&& match result {
                Ok(_) => {
                    &&& next.wf()
                    &&& next.platform() == stream.platform()
                    &&& next.phase() == Phase::Connected
                    &&& next.resource() == stream.resource()
                    &&& step.wake is None
                    &&& step.action matches WriteAction::Return(Poll::Ready(Ok(reported)))
                    &&& reported == n
                },
                Err(error) => fails_with(stream, (next, step), error),
            }
        }),
{
}

/// What `sendto` says of the connection request decides. If it went out, with data or without, the socket
/// is handed out to be registered, to report the bytes that were sent or to wait for the handshake.
/// Otherwise the error comes back, and the stream keeps its target.
pub proof fn law_request_decides<'b, S, C, W, O, E>(
    stream: SysTcpStream<S, C, W, O>,
    buf: &'b [u8],
    result: Result<usize, Failure<E>>,
    codes: ErrorCodes,
)
    requires
        stream.wf(),
        stream.resource() is Connecting,
        stream.platform() != Platform::Windows,
    ensures
        ({
            let event = WriteEvent::<S, C, W, O, E>::SentTo(result);
            let (next, step) = stream.spec_poll_write(buf, event, codes);
            &&& stream.accepts(event)
            &&& match result {
                Ok(n) => {
                    &&& step.wake is None
                    &&& step.action matches WriteAction::Register { socket, handover }
                    &&& hands_out(stream, next, socket, handover, AfterRegister::Sent(n))
                },
                Err(failure) => if failure.code == Some(codes.in_progress) {
                    &&& step.wake is None
                    &&& step.action matches WriteAction::Register { socket, handover }
                    &&& hands_out(stream, next, socket, handover, AfterRegister::Handshake)
                } else {
                    fails_with(stream, (next, step), failure.error)
                },
            }
        }),
{
}

/// What `ConnectEx` says of the connection request decides. If the connection stands, the socket is
/// handed out to get its context, and to report the bytes that were sent. If it goes on in the background,
/// the socket is handed out to be registered, with the record of the attempt. Otherwise the error comes
/// back, and the stream keeps its target.
pub proof fn law_connect_ex_decides<'b, S, C, W, O, E>(
    stream: SysTcpStream<S, C, W, O>,
    buf: &'b [u8],
    overlapped: O,
    result: Result<u32, Failure<E>>,
    codes: ErrorCodes,
)
    requires
        stream.wf(),
        stream.resource() is Connecting,
        stream.platform() == Platform::Windows,
    ensures
        ({
            let event = WriteEvent::<S, C, W, O, E>::ConnectExReturned { overlapped, result };
            let (next, step) = stream.spec_poll_write(buf, event, codes);
            &&& stream.accepts(event)
            &&& match result {
                Ok(n) => {
                    &&& step.wake is None
                    &&& step.action matches WriteAction::UpdateContext { socket, handover }
                    &&& hands_out(
                        stream,
                        next,
                        socket,
                        handover,
                        AfterRegister::Sent(n as usize),
                    )
                },
                Err(failure) => if failure.code == Some(997i32) {
                    &&& step.wake is None
                    &&& step.action matches WriteAction::Register { socket, handover }
                    &&& hands_out(
                        stream,
                        next,
                        socket,
                        handover,
                        AfterRegister::Overlapped(overlapped),
                    )
                } else {
                    fails_with(stream, (next, step), failure.error)
                },
            }
        }),
{
}

/// A socket that has got its context is handed out to be registered, as it came. If it has not, the error
/// comes back.
pub proof fn law_context_decides<'b, S, C, W, O, E>(
    stream: SysTcpStream<S, C, W, O>,
    buf: &'b [u8],
    socket: S,
    handover: Handover<W, O>,
    result: Result<(), E>,
    codes: ErrorCodes,
)
    requires
        stream.wf(),
        stream.resource() is Empty,
        stream.platform() == Platform::Windows,
        handover.then_do is Sent,
    ensures
        ({
            let event = WriteEvent::<S, C, W, O, E>::ContextUpdated { socket, handover, result };
            let (next, step) = stream.spec_poll_write(buf, event, codes);
            &&& stream.accepts(event)
            &&& match result {
                Ok(_) => {
                    &&& next == stream
                    &&& step.wake is None
                    &&& step.action matches WriteAction::Register { socket: s, handover: h }
                    &&& s == socket
                    &&& h == handover
                },
                Err(error) => fails_with(stream, (next, step), error),
            }
        }),
{
}

/// A registered stream takes the place of the socket that was handed out, and the task that waits to read
/// is woken. Bytes that were sent are reported, with a connection; a connection that is being made is
/// waited for. If the event loop refuses the socket, the error comes back.
pub proof fn law_registration_decides<'b, S, C, W, O, E>(
    stream: SysTcpStream<S, C, W, O>,
    buf: &'b [u8],
    handover: Handover<W, O>,
    result: Result<C, E>,
    codes: ErrorCodes,
)
    requires
        stream.wf(),
        stream.resource() is Empty,
        if stream.platform() == Platform::Windows {
            !(handover.then_do is Handshake)
        } else {
            !(handover.then_do is Overlapped)
        },
    ensures
        ({
            let event = WriteEvent::<S, C, W, O, E>::Registered { handover, result };
            let (next, step) = stream.spec_poll_write(buf, event, codes);
            &&& stream.accepts(event)
            &&& match result {
                Ok(registered) => {
                    &&& next.wf()
                    &&& next.platform() == stream.platform()
                    &&& next.resource() is Connected
                    &&& next.resource()->Connected_0 == registered
                    &&& step.wake == handover.reader
                    &&& match handover.then_do {
                        AfterRegister::Sent(n) => {
                            &&& next.phase() == Phase::Connected
                            &&& step.action matches WriteAction::Return(Poll::Ready(Ok(reported)))
                            &&& reported == n
                        },
                        AfterRegister::Handshake => {
                            &&& next.phase() == Phase::Connecting
                            &&& step.action is PollWriteReady
                        },
                        AfterRegister::Overlapped(overlapped) => {
                            &&& next.phase() == Phase::Connecting
                            &&& record(next) == Some(overlapped)
                            &&& step.action is PollWriteReady
                        },
                    }
                },
                Err(error) => fails_with(stream, (next, step), error),
            }
        }),
{
}

/// What the first send on a stream that is to carry its connection request says decides. Bytes that were
/// sent are reported, with a connection. If the request went out without data, the write goes on with the
/// handshake: on macOS that is left to the connected stream, elsewhere it is waited for. A stream that was
/// not ready after all is waited for as before. Any other error comes back.
pub proof fn law_tried_send_decides<'b, S, C, W, O, E>(
    stream: SysTcpStream<S, C, W, O>,
    buf: &'b [u8],
    connecting: bool,
    result: Result<usize, Failure<E>>,
    codes: ErrorCodes,
)
    requires
        stream.wf(),
        stream.resource() is Connected,
        stream.phase() == Phase::FirstWrite,
    ensures
        ({
            let event = WriteEvent::<S, C, W, O, E>::TriedSend { connecting, result };
            let (next, step) = stream.spec_poll_write(buf, event, codes);
            let moved = {
                &&& next.wf()
                &&& next.platform() == stream.platform()
                &&& next.resource() == stream.resource()
                &&& step.wake is None
            };
            &&& stream.accepts(event)
            &&& match result {
                Ok(n) => {
                    &&& moved
                    &&& next.phase() == Phase::Connected
                    &&& step.action matches WriteAction::Return(Poll::Ready(Ok(reported)))
                    &&& reported == n
                },
                Err(failure) => if failure.kind != ErrorKind::WouldBlock {
                    fails_with(stream, (next, step), failure.error)
                } else if !connecting {
                    next == stream && waits(step)
                } else if stream.platform() == Platform::Macos {
                    &&& moved
                    &&& next.phase() == Phase::Connected
                    &&& step.action matches WriteAction::PollWrite(payload)
                    &&& payload == buf
                } else {
                    &&& moved
                    &&& next.phase() == Phase::Connecting
                    &&& waits(step)
                },
            }
        }),
{
}

/// What has come of a `ConnectEx` in the background decides. Bytes that were sent are carried on to be
/// reported when the pending error of the socket has been fetched. One that is not over is waited for. Any
/// other error comes back. The stream is left as it is.
pub proof fn law_fetched_result_decides<'b, S, C, W, O, E>(
    stream: SysTcpStream<S, C, W, O>,
    buf: &'b [u8],
    result: Result<usize, Failure<E>>,
    codes: ErrorCodes,
)
    requires
        stream.wf(),
        stream.phase() == Phase::Connecting,
        stream.platform() == Platform::Windows,
    ensures
        ({
            let event = WriteEvent::<S, C, W, O, E>::ConnectResult(result);
            let (next, step) = stream.spec_poll_write(buf, event, codes);
            &&& stream.accepts(event)
            &&& next == stream
            &&& match result {
                Ok(n) => {
                    &&& step.wake is None
                    &&& step.action matches WriteAction::TakeError { sent }
                    &&& sent == Some(n)
                },
                Err(failure) => if failure.kind == ErrorKind::WouldBlock {
                    waits(step)
                } else {
                    fails_with(stream, (next, step), failure.error)
                },
            }
        }),
{
}

} // verus!
