use std::time::Duration;

use tokio_tfo::addr::{AddressFamily, SocketAddr, SocketAddrV4};
use tokio_tfo::io::{ErrorCodes, ErrorKind, Failure, Poll};
use tokio_tfo::sys::platform::Platform;
use tokio_tfo::sys::{
    ConnectAction, ConnectEvent, ConnectStep, FlushAction, Handle, PeerAddr, ReadAction, SocketCall, SocketOp,
    SocketOption, WriteAction, WriteEvent,
};
use tokio_tfo::TfoStream;

type Stream = TfoStream<u8, u16, &'static str, u32>;
type Event = WriteEvent<u8, u16, &'static str, u32, &'static str>;
type Connect = ConnectStep<u8, Stream, &'static str>;

const ALL: [Platform; 4] = [Platform::Linux, Platform::FreeBsd, Platform::Macos, Platform::Windows];

const CODES: ErrorCodes = ErrorCodes {
    in_progress: 115,
    no_proto_opt: 92,
};

fn target() -> SocketAddr {
    SocketAddr::V4(SocketAddrV4 {
        ip: 0x7f000001,
        port: 80,
    })
}

/// Connects socket 3, with success in everything; a stream of the event loop has number 7.
fn connected_by(platform: Platform, support: bool) -> (Stream, usize) {
    let mut support = support;
    let mut actions = 0;
    let mut step: Connect = Stream::connect_with_socket(platform, 3, target(), support);
    loop {
        let action = match step {
            ConnectStep::Return(result) => return (result.unwrap(), actions),
            ConnectStep::Do(action) => action,
        };
        actions += 1;
        let event = match action {
            ConnectAction::NewSocket { addr, .. } => ConnectEvent::SocketCreated { addr, result: Ok(3) },
            ConnectAction::SetOption { ticket, .. } => ConnectEvent::OptionSet { ticket, result: Ok(()) },
            ConnectAction::Bind { ticket, .. } => ConnectEvent::Bound { ticket, result: Ok(()) },
            ConnectAction::Connect(_) => ConnectEvent::Connected(Ok(7)),
            ConnectAction::ConnectX(ticket) => ConnectEvent::ConnectXReturned { ticket, result: Ok(()) },
            ConnectAction::Register(_) => ConnectEvent::Registered(Ok(7)),
        };
        step = Stream::resume_connect(platform, event, CODES, &mut support);
    }
}

#[test]
fn connect_begins_with_a_socket_everywhere() {
    for platform in ALL {
        let step: Connect = Stream::connect(platform, target());
        assert_eq!(
            step,
            ConnectStep::Do(ConnectAction::NewSocket {
                family: AddressFamily::V4,
                addr: target()
            })
        );
    }
}

#[test]
fn connecting_takes_two_actions_at_most() {
    assert_eq!(connected_by(Platform::Linux, true).1, 2);
    assert_eq!(connected_by(Platform::Linux, false).1, 0);
    assert_eq!(connected_by(Platform::FreeBsd, true).1, 1);
    assert_eq!(connected_by(Platform::Macos, true).1, 2);
    assert_eq!(connected_by(Platform::Windows, true).1, 2);
}

#[test]
fn connecting_records_the_target() {
    for (platform, support) in [
        (Platform::Linux, false),
        (Platform::FreeBsd, true),
        (Platform::Windows, true),
    ] {
        let (stream, _) = connected_by(platform, support);
        assert!(stream.is_usable());
        assert_eq!(stream.peer_addr(), PeerAddr::Known(target()));
        assert_eq!(stream.handle(), Handle::Socket(&3));
    }
    for platform in [Platform::Linux, Platform::Macos] {
        let (stream, _) = connected_by(platform, true);
        assert!(stream.is_usable());
        assert_eq!(stream.peer_addr(), PeerAddr::Ask(&7));
        assert_eq!(stream.handle(), Handle::Stream(&7));
    }
}

#[test]
fn connecting_keeps_to_the_socket_and_the_target() {
    for (platform, support, setting) in [
        (Platform::Linux, true, Some((SocketOption::FastOpenConnect, 1))),
        (Platform::FreeBsd, true, Some((SocketOption::FastOpen, 1))),
        (Platform::Macos, true, None),
        (Platform::Windows, true, Some((SocketOption::FastOpen, 1))),
    ] {
        let mut support = support;
        let mut set = None;
        let mut step: Connect = Stream::connect_with_socket(platform, 3, target(), support);
        while let ConnectStep::Do(action) = step {
            let event = match action {
                ConnectAction::SetOption { ticket, setting } => {
                    assert_eq!((ticket.socket, ticket.addr), (3, target()));
                    set = Some((setting.option, setting.value));
                    ConnectEvent::OptionSet { ticket, result: Ok(()) }
                }
                ConnectAction::Bind { ticket, local } => {
                    assert_eq!((ticket.socket, ticket.addr), (3, target()));
                    assert_eq!(local, SocketAddr::unspecified(AddressFamily::V4));
                    ConnectEvent::Bound { ticket, result: Ok(()) }
                }
                ConnectAction::Connect(ticket) => {
                    assert_eq!((ticket.socket, ticket.addr), (3, target()));
                    ConnectEvent::Connected(Ok(7))
                }
                ConnectAction::ConnectX(ticket) => {
                    assert_eq!((ticket.socket, ticket.addr), (3, target()));
                    ConnectEvent::ConnectXReturned { ticket, result: Ok(()) }
                }
                ConnectAction::Register(socket) => {
                    assert_eq!(socket, 3);
                    ConnectEvent::Registered(Ok(7))
                }
                other => panic!("unexpected {:?}", other),
            };
            step = Stream::resume_connect(platform, event, CODES, &mut support);
        }
        assert_eq!(set, setting);
    }
}

#[test]
fn connect_errors_surface_everywhere() {
    for platform in ALL {
        let mut support = true;
        let event = ConnectEvent::SocketCreated {
            addr: target(),
            result: Err("no descriptors"),
        };
        let step: Connect = Stream::resume_connect(platform, event, CODES, &mut support);
        assert_eq!(step, ConnectStep::Return(Err("no descriptors")));
        assert!(support);
    }
}

#[test]
fn only_linux_gives_up_the_option() {
    for platform in [Platform::Linux, Platform::FreeBsd, Platform::Windows] {
        let mut support = true;
        let ticket = match Stream::connect_with_socket::<&'static str>(platform, 3, target(), support) {
            ConnectStep::Do(ConnectAction::SetOption { ticket, .. }) => ticket,
            other => panic!("unexpected {:?}", other),
        };
        let event = ConnectEvent::OptionSet {
            ticket,
            result: Err(Failure {
                code: Some(92),
                kind: ErrorKind::Other,
                error: "no option",
            }),
        };
        let step: Connect = Stream::resume_connect(platform, event, CODES, &mut support);
        assert_eq!(support, platform != Platform::Linux);
        match step {
            ConnectStep::Return(Ok(stream)) => {
                assert_eq!(platform, Platform::Linux);
                assert_eq!(stream.peer_addr(), PeerAddr::Known(target()));
            }
            ConnectStep::Return(Err(error)) => {
                assert_ne!(platform, Platform::Linux);
                assert_eq!(error, "no option");
            }
            other => panic!("unexpected {:?}", other),
        }
    }
}

#[test]
fn options_go_to_the_socket_and_later_to_the_stream() {
    let (before, _) = connected_by(Platform::FreeBsd, true);
    let after = Stream::from(Platform::FreeBsd, 7);
    let on_socket = |op| SocketCall::<'_, u8, u16> {
        target: Handle::Socket(&3),
        op,
    };
    let on_stream = |op| SocketCall::<'_, u8, u16> {
        target: Handle::Stream(&7),
        op,
    };

    assert_eq!(before.local_addr(), on_socket(SocketOp::LocalAddr));
    assert_eq!(after.local_addr(), on_stream(SocketOp::LocalAddr));
    assert_eq!(before.nodelay(), on_socket(SocketOp::Nodelay));
    assert_eq!(after.nodelay(), on_stream(SocketOp::Nodelay));
    assert_eq!(before.set_nodelay(true), on_socket(SocketOp::SetNodelay(true)));
    assert_eq!(after.set_nodelay(false), on_stream(SocketOp::SetNodelay(false)));
    assert_eq!(before.linger(), on_socket(SocketOp::Linger));
    assert_eq!(after.linger(), on_stream(SocketOp::Linger));
    let dur = Some(Duration::from_secs(3));
    assert_eq!(before.set_linger(dur), on_socket(SocketOp::SetLinger(dur)));
    assert_eq!(after.set_linger(None), on_stream(SocketOp::SetLinger(None)));
    assert_eq!(before.ttl(), on_socket(SocketOp::Ttl));
    assert_eq!(after.ttl(), on_stream(SocketOp::Ttl));
    assert_eq!(before.set_ttl(64), on_socket(SocketOp::SetTtl(64)));
    assert_eq!(after.set_ttl(255), on_stream(SocketOp::SetTtl(255)));
}

#[test]
fn options_go_to_the_stream_on_every_platform() {
    for platform in ALL {
        let stream = Stream::from(platform, 7);
        let on_stream = |op| SocketCall::<'_, u8, u16> {
            target: Handle::Stream(&7),
            op,
        };
        assert_eq!(stream.local_addr(), on_stream(SocketOp::LocalAddr));
        assert_eq!(stream.nodelay(), on_stream(SocketOp::Nodelay));
        assert_eq!(stream.set_nodelay(true), on_stream(SocketOp::SetNodelay(true)));
        assert_eq!(stream.linger(), on_stream(SocketOp::Linger));
        assert_eq!(stream.set_linger(None), on_stream(SocketOp::SetLinger(None)));
        assert_eq!(stream.ttl(), on_stream(SocketOp::Ttl));
        assert_eq!(stream.set_ttl(1), on_stream(SocketOp::SetTtl(1)));
        assert_eq!(stream.handle(), Handle::Stream(&7));
        assert_eq!(stream.peer_addr(), PeerAddr::Ask(&7));
    }
}

#[test]
fn connected_streams_are_written_to_directly() {
    for platform in ALL {
        let mut stream = Stream::from(platform, 7);
        let step = stream.poll_write(b"data", Event::Start, CODES);
        assert_eq!(step.wake, None);
        assert_eq!(step.action, WriteAction::PollWrite(b"data"));
        assert_eq!(stream, Stream::from(platform, 7));
        assert_eq!(stream.poll_read("reader"), ReadAction::PollRead);
        assert_eq!(stream.poll_flush(), FlushAction::Delegate);
        assert_eq!(stream.poll_shutdown(), FlushAction::Delegate);
    }
}

#[test]
fn connected_gives_the_stream_of_the_event_loop() {
    for platform in ALL {
        let mut stream = Stream::from(platform, 7);
        *stream.connected() += 1;
        assert_eq!(stream, Stream::from(platform, 8));
    }
}

#[test]
fn nothing_is_flushed_before_there_is_a_connection() {
    for platform in [Platform::FreeBsd, Platform::Windows] {
        let (stream, _) = connected_by(platform, true);
        assert_eq!(stream.poll_flush(), FlushAction::Done);
        assert_eq!(stream.poll_shutdown(), FlushAction::Done);
    }
}

#[test]
fn lost_streams_are_not_usable() {
    let (mut stream, _) = connected_by(Platform::Linux, false);
    let step = stream.poll_write(b"x", Event::SentTo(Ok(1)), CODES);
    assert!(!stream.is_usable());
    let handover = match step.action {
        WriteAction::Register { handover, socket } => {
            assert_eq!(socket, 3);
            handover
        }
        other => panic!("unexpected {:?}", other),
    };
    let event = Event::Registered {
        handover,
        result: Err("too many"),
    };
    let step = stream.poll_write(b"x", event, CODES);
    assert_eq!(step.action, WriteAction::Return(Poll::Ready(Err("too many"))));
    assert!(!stream.is_usable());
    assert_eq!(stream.poll_flush(), FlushAction::Done);
}

#[test]
fn writes_keep_the_stream() {
    for platform in [Platform::FreeBsd, Platform::Windows] {
        let (mut stream, _) = connected_by(platform, true);
        let mut event = Event::Start;
        loop {
            let step = stream.poll_write(b"data", event, CODES);
            assert_eq!(
                stream.is_usable(),
                !matches!(
                    step.action,
                    WriteAction::Register { .. } | WriteAction::UpdateContext { .. }
                )
            );
            event = match step.action {
                WriteAction::SendTo { .. } => Event::SentTo(Ok(4)),
                WriteAction::ConnectEx { .. } => Event::ConnectExReturned {
                    overlapped: 99,
                    result: Ok(4),
                },
                WriteAction::UpdateContext { socket, handover } => {
                    assert_eq!(socket, 3);
                    Event::ContextUpdated {
                        socket,
                        handover,
                        result: Ok(()),
                    }
                }
                WriteAction::Register { socket, handover } => {
                    assert_eq!(socket, 3);
                    Event::Registered {
                        handover,
                        result: Ok(12),
                    }
                }
                WriteAction::Return(answer) => {
                    assert_eq!(answer, Poll::Ready(Ok(4)));
                    break;
                }
                other => panic!("unexpected {:?}", other),
            };
        }
        assert_eq!(stream.handle(), Handle::Stream(&12));
        let step = stream.poll_write(b"more", Event::Start, CODES);
        assert_eq!(step.action, WriteAction::PollWrite(b"more"));
        assert_eq!(stream.handle(), Handle::Stream(&12));
    }
}

#[test]
fn waiting_reader_is_woken_once_by_the_write_that_connects() {
    let (mut stream, _) = connected_by(Platform::FreeBsd, true);
    assert_eq!(stream.poll_read("reader"), ReadAction::Park { wake: None });

    let mut woken = vec![];
    let mut event = Event::Start;
    let answer = loop {
        let step = stream.poll_write(b"GET / HTTP/1.1\r\n\r\n", event, CODES);
        woken.extend(step.wake);
        event = match step.action {
            WriteAction::SendTo { addr, payload, .. } => {
                assert_eq!(addr, target());
                Event::SentTo(Ok(payload.len()))
            }
            WriteAction::Register { handover, .. } => Event::Registered {
                handover,
                result: Ok(7),
            },
            WriteAction::Return(answer) => break answer,
            other => panic!("unexpected {:?}", other),
        };
    };
    assert_eq!(answer, Poll::Ready(Ok(18)));
    assert_eq!(woken, vec!["reader"]);
    assert_eq!(stream.poll_read("reader"), ReadAction::PollRead);
}

#[test]
fn unspecified_addresses() {
    assert_eq!(
        SocketAddr::unspecified(AddressFamily::V4),
        SocketAddr::V4(SocketAddrV4 { ip: 0, port: 0 })
    );
    assert_eq!(
        SocketAddr::unspecified(AddressFamily::V6).family(),
        AddressFamily::V6
    );
    assert_eq!(target().family(), AddressFamily::V4);
}
