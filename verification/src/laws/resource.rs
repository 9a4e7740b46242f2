//! Laws of the resource behind a stream.

use vstd::prelude::*;

use crate::sys::platform::{Phase, Platform, SysTcpStream};
use crate::sys::unix::bsd::{freebsd, macos};
use crate::sys::unix::linux;
use crate::sys::{windows, FlushAction, Handle, PeerAddr, ReadAction, TcpStreamOption};

verus! {

/// A read before the first write leaves the target alone: the socket and the address to connect to stay
/// what they were, and so does what `peer_addr` and the operations on the socket say. It takes the place
/// of the read that waited before, which is handed out to be woken.
pub proof fn law_read_leaves_the_target_alone<S, C, W>(
    resource: TcpStreamOption<S, C, W>,
    waker: W,
)
    requires
        resource is Connecting,
    ensures
        ({
            let (next, action) = resource.spec_poll_read(waker);
            &&& next is Connecting
            &&& next->socket == resource->socket
            &&& next->addr == resource->addr
            &&& next->reader == Some(waker)
            &&& next.spec_peer_addr() == resource.spec_peer_addr()
            &&& next.spec_handle() == resource.spec_handle()
            &&& action is Park
            &&& action->wake == resource->reader
        }),
{
}

/// A read of a stream that the event loop knows goes to that stream, and changes nothing.
pub proof fn law_read_goes_to_the_stream<S, C, W>(resource: TcpStreamOption<S, C, W>, waker: W)
    requires
        resource is Connected,
    ensures
        resource.spec_poll_read(waker).0 == resource,
        resource.spec_poll_read(waker).1 is PollRead,
{
}

/// Of two reads before the first write, the second hands out the task of the first, and is the one that
/// waits from then on.
pub proof fn law_last_read_waits<S, C, W>(
    resource: TcpStreamOption<S, C, W>,
    first: W,
    second: W,
)
    requires
        resource is Connecting,
    ensures
        ({
            let between = resource.spec_poll_read(first).0;
            let (end, action) = between.spec_poll_read(second);
            &&& action == ReadAction::Park { wake: Some(first) }
            &&& end == resource.spec_poll_read(second).0
        }),
{
}

/// System calls on a stream go to what the stream holds. Its peer is the address that it is to connect
/// to until the event loop knows it; from then on the stream is asked. Only a stream that the event loop
/// knows is flushed or shut down.
pub proof fn law_calls_go_to_the_resource<S, C, W>(resource: TcpStreamOption<S, C, W>)
    ensures
        resource matches TcpStreamOption::Connected(stream) ==> {
            &&& resource.spec_handle() == Handle::<S, C>::Stream(&stream)
            &&& resource.spec_peer_addr() == PeerAddr::<C>::Ask(&stream)
        },
        resource matches TcpStreamOption::Connecting { socket, addr, .. } ==> {
            &&& resource.spec_handle() == Handle::<S, C>::Socket(&socket)
            &&& resource.spec_peer_addr() == PeerAddr::<C>::Known(addr)
        },
        resource.spec_poll_flush() == FlushAction::Delegate <==> resource is Connected,
        resource.spec_poll_flush() == FlushAction::Done <==> !(resource is Connected),
{
}

/// What a stream holds, how far its connection is, and when it is well-formed and usable, is the same
/// question for all platforms, and is answered by what the stream of the platform says.
pub proof fn law_stream_is_that_of_its_platform<S, C, W, O>(stream: SysTcpStream<S, C, W, O>)
    ensures
        match stream {
            SysTcpStream::Linux(inner) => {
                &&& stream.platform() == Platform::Linux
                &&& stream.resource() == inner.stream
                &&& stream.phase() == Phase::Connected <==> inner.state
                    == linux::TcpStreamState::Connected
                &&& stream.phase() == Phase::Connecting <==> inner.state
                    == linux::TcpStreamState::FastOpenConnecting
                &&& stream.wf() <==> (inner.state == linux::TcpStreamState::FastOpenConnect
                    <==> !(inner.stream is Connected))
            },
            SysTcpStream::FreeBsd(inner) => {
                &&& stream.platform() == Platform::FreeBsd
                &&& stream.resource() == inner.stream
                &&& stream.phase() == Phase::Connected <==> inner.state
                    == freebsd::TcpStreamState::Connected
                &&& stream.phase() == Phase::Connecting <==> inner.state
                    == freebsd::TcpStreamState::FastOpenConnecting
                &&& stream.wf() <==> (inner.state == freebsd::TcpStreamState::FastOpenConnect
                    <==> !(inner.stream is Connected))
            },
            SysTcpStream::Macos(inner) => {
                &&& stream.platform() == Platform::Macos
                &&& stream.resource() == TcpStreamOption::<S, C, W>::Connected(inner.inner)
                &&& stream.phase() == Phase::Connected <==> inner.state
                    == macos::TcpStreamState::Connected
                &&& stream.phase() != Phase::Connecting
                &&& stream.wf()
            },
            SysTcpStream::Windows(inner) => {
                &&& stream.platform() == Platform::Windows
                &&& stream.resource() == inner.stream
                &&& stream.phase() == Phase::Connected <==> inner.state is Connected
                &&& stream.phase() == Phase::Connecting <==> inner.state is FastOpenConnecting
                &&& stream.wf() <==> (inner.state is FastOpenConnect <==> !(
                inner.stream is Connected))
            },
        },
        stream.usable() <==> stream.wf() && !(stream.resource() is Empty),
{
}

/// Putting another resource into a stream changes nothing else about it.
pub proof fn law_only_the_resource_is_replaced<S, C, W, O>(
    stream: SysTcpStream<S, C, W, O>,
    resource: TcpStreamOption<S, C, W>,
)
    requires
        stream.platform() == Platform::Macos ==> resource is Connected,
    ensures
        ({
            let next = stream.with_resource(resource);
            &&& next.resource() == resource
            &&& next.with_resource(stream.resource()) == stream
            &&& match stream {
                SysTcpStream::Linux(inner) => next matches SysTcpStream::Linux(n) && n.state
                    == inner.state,
                SysTcpStream::FreeBsd(inner) => next matches SysTcpStream::FreeBsd(n) && n.state
                    == inner.state,
                SysTcpStream::Macos(inner) => next matches SysTcpStream::Macos(n) && n.state
                    == inner.state,
                SysTcpStream::Windows(inner) => next matches SysTcpStream::Windows(n) && n.state
                    == inner.state,
            }
        }),
{
}

/// A stream made of one that the event loop knows has a connection, on its platform, and is that one.
pub proof fn law_made_streams_are_connected<S, C, W, O>(platform: Platform, stream: C)
    ensures
        ({
            let made = SysTcpStream::<S, C, W, O>::spec_from(platform, stream);
            &&& made.platform() == platform
            &&& made.phase() == Phase::Connected
            &&& made.resource() == TcpStreamOption::<S, C, W>::Connected(stream)
            &&& made.usable()
        }),
        linux::TcpStream::<S, C, W>::spec_from(stream).state == linux::TcpStreamState::Connected,
        freebsd::TcpStream::<S, C, W>::spec_from(stream).state
            == freebsd::TcpStreamState::Connected,
        macos::TcpStream::<C>::spec_from(stream).state == macos::TcpStreamState::Connected,
        windows::TcpStream::<S, C, W, O>::spec_from(stream).state is Connected,
{
}

/// Streams that agree in platform, phase, resource and the record of their attempt to connect are the
/// same.
pub proof fn law_streams_are_told_apart<S, C, W, O>(
    a: SysTcpStream<S, C, W, O>,
    b: SysTcpStream<S, C, W, O>,
)
    requires
        a.wf(),
        b.wf(),
        a.platform() == b.platform(),
        a.phase() == b.phase(),
        a.resource() == b.resource(),
        crate::laws::step::record(a) == crate::laws::step::record(b),
    ensures
        a == b,
{
}

} // verus!
