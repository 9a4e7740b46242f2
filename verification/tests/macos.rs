use tokio_tfo::addr::{AddressFamily, SocketAddr, SocketAddrV4};
use tokio_tfo::io::{ErrorKind, Failure, Poll};
use tokio_tfo::sys::unix::bsd::macos::{set_tcp_fastopen, set_tcp_fastopen_force_enable, TcpStream, TcpStreamState};
use tokio_tfo::sys::{
    ConnectAction, ConnectEvent, ConnectStep, ConnectTicket, FlushAction, Handle, OptionSetting, PeerAddr, ReadAction,
    SocketOption, WriteAction, WriteEvent, WriteStep,
};

type Stream = TcpStream<u16>;
type Event = WriteEvent<u8, u16, &'static str, u32, &'static str>;
type Action<'b> = WriteAction<'b, u8, &'static str, u32, &'static str>;
type Step<'b> = WriteStep<'b, u8, &'static str, u32, &'static str>;
type Connect = ConnectStep<u8, Stream, &'static str>;

fn target() -> SocketAddr {
    SocketAddr::V4(SocketAddrV4 { ip: 9, port: 53 })
}

fn ticket() -> ConnectTicket<u8> {
    ConnectTicket {
        socket: 3,
        addr: target(),
    }
}

fn in_state(state: TcpStreamState) -> Stream {
    TcpStream { inner: 7, state }
}

fn quietly(action: Action<'_>) -> Step<'_> {
    WriteStep { wake: None, action }
}

fn would_block() -> Failure<&'static str> {
    Failure {
        code: Some(35),
        kind: ErrorKind::WouldBlock,
        error: "again",
    }
}

#[test]
fn macos_connect_goes_through_connectx() {
    let step: Connect = Stream::connect(target());
    assert_eq!(
        step,
        ConnectStep::Do(ConnectAction::NewSocket {
            family: AddressFamily::V4,
            addr: target()
        })
    );
    let created = ConnectEvent::SocketCreated {
        addr: target(),
        result: Ok(3),
    };
    let step: Connect = Stream::resume_connect(created);
    assert_eq!(step, ConnectStep::Do(ConnectAction::ConnectX(ticket())));
    let step: Connect = Stream::connect_with_socket(3, target());
    assert_eq!(step, ConnectStep::Do(ConnectAction::ConnectX(ticket())));
    let returned = ConnectEvent::ConnectXReturned {
        ticket: ticket(),
        result: Ok(()),
    };
    let step: Connect = Stream::resume_connect(returned);
    assert_eq!(step, ConnectStep::Do(ConnectAction::Register(3)));
    let registered: ConnectEvent<u8, u16, &'static str> = ConnectEvent::Registered(Ok(7));
    let step: Connect = Stream::resume_connect(registered);
    assert_eq!(step, ConnectStep::Return(Ok(in_state(TcpStreamState::FastOpenWrite))));
}

#[test]
fn macos_connect_errors_come_back() {
    let events: [ConnectEvent<u8, u16, &'static str>; 3] = [
        ConnectEvent::SocketCreated {
            addr: target(),
            result: Err("failed"),
        },
        ConnectEvent::ConnectXReturned {
            ticket: ticket(),
            result: Err("failed"),
        },
        ConnectEvent::Registered(Err("failed")),
    ];
    for event in events {
        let step: Connect = Stream::resume_connect(event);
        assert_eq!(step, ConnectStep::Return(Err("failed")));
    }
}

#[test]
fn macos_first_write_sends_the_request() {
    let mut stream = in_state(TcpStreamState::FastOpenWrite);
    let buf = b"hello";
    assert_eq!(
        stream.poll_write(buf, Event::Start),
        quietly(WriteAction::PollWriteReady)
    );
    assert_eq!(
        stream.poll_write(buf, Event::WriteReady(Poll::Pending)),
        quietly(WriteAction::Return(Poll::Pending))
    );
    assert_eq!(
        stream.poll_write(buf, Event::WriteReady(Poll::Ready(Ok(())))),
        quietly(WriteAction::TrySend(buf))
    );
    let event = Event::TriedSend {
        connecting: false,
        result: Ok(5),
    };
    assert_eq!(
        stream.poll_write(buf, event),
        quietly(WriteAction::Return(Poll::Ready(Ok(5))))
    );
    assert_eq!(stream, in_state(TcpStreamState::Connected));
}

#[test]
fn macos_first_write_that_only_connects_leaves_the_rest_to_the_stream() {
    let mut stream = in_state(TcpStreamState::FastOpenWrite);
    let event = Event::TriedSend {
        connecting: true,
        result: Err(would_block()),
    };
    assert_eq!(
        stream.poll_write(b"hello", event),
        quietly(WriteAction::PollWrite(b"hello"))
    );
    assert_eq!(stream, in_state(TcpStreamState::Connected));
}

#[test]
fn macos_first_write_that_was_not_ready_waits_again() {
    let mut stream = in_state(TcpStreamState::FastOpenWrite);
    let event = Event::TriedSend {
        connecting: false,
        result: Err(would_block()),
    };
    assert_eq!(
        stream.poll_write(b"x", event),
        quietly(WriteAction::PollWriteReady)
    );
    assert_eq!(stream, in_state(TcpStreamState::FastOpenWrite));
}

#[test]
fn macos_write_errors_come_back() {
    let mut stream = in_state(TcpStreamState::FastOpenWrite);
    assert_eq!(
        stream.poll_write(b"x", Event::WriteReady(Poll::Ready(Err("gone")))),
        quietly(WriteAction::Return(Poll::Ready(Err("gone"))))
    );
    let event = Event::TriedSend {
        connecting: false,
        result: Err(Failure {
            code: Some(61),
            kind: ErrorKind::Other,
            error: "refused",
        }),
    };
    assert_eq!(
        stream.poll_write(b"x", event),
        quietly(WriteAction::Return(Poll::Ready(Err("refused"))))
    );
    assert_eq!(stream, in_state(TcpStreamState::FastOpenWrite));
}

#[test]
fn macos_stream_is_the_one_that_the_event_loop_knows() {
    let mut stream = in_state(TcpStreamState::FastOpenWrite);
    assert_eq!(*stream.deref(), 7);
    *stream.deref_mut() = 8;
    assert_eq!(*stream.deref(), 8);
    assert_eq!(stream.state, TcpStreamState::FastOpenWrite);
    let handle: Handle<'_, u8, u16> = stream.as_raw_fd();
    assert_eq!(handle, Handle::Stream(&8));
    assert_eq!(stream.peer_addr(), PeerAddr::Ask(&8));
    let read: ReadAction<&str> = stream.poll_read();
    assert_eq!(read, ReadAction::PollRead);
    assert_eq!(stream.poll_flush(), FlushAction::Delegate);
    assert_eq!(stream.poll_shutdown(), FlushAction::Delegate);
}

#[test]
fn macos_stream_from_a_registered_one_is_connected() {
    let registered: Result<u16, &str> = Ok(7);
    assert_eq!(Stream::from_std(registered), Ok(in_state(TcpStreamState::Connected)));
    let refused: Result<u16, &str> = Err("too many");
    assert_eq!(Stream::from_std(refused), Err("too many"));
    assert_eq!(Stream::from(7), in_state(TcpStreamState::Connected));
}

#[test]
fn macos_options_are_switches() {
    let call = set_tcp_fastopen(&5u8);
    assert_eq!(
        call.setting,
        OptionSetting {
            option: SocketOption::FastOpen,
            value: 1
        }
    );
    let call = set_tcp_fastopen_force_enable(&5u8);
    assert_eq!(*call.socket, 5);
    assert_eq!(
        call.setting,
        OptionSetting {
            option: SocketOption::FastOpenForceEnable,
            value: 1
        }
    );
}
