use tokio_tfo::addr::{AddressFamily, SocketAddr, SocketAddrV6};
use tokio_tfo::io::{ErrorCodes, ErrorKind, Failure, Poll};
use tokio_tfo::sys::unix::bsd::freebsd::{set_tcp_fastopen, TcpStream, TcpStreamState};
use tokio_tfo::sys::{
    AfterRegister, ConnectAction, ConnectEvent, ConnectStep, ConnectTicket, FlushAction, Handle, Handover, OptionSetting,
    PeerAddr, ReadAction, SocketOption, TcpStreamOption, WriteAction, WriteEvent, WriteStep,
};

type Stream = TcpStream<u8, u16, &'static str>;
type Event = WriteEvent<u8, u16, &'static str, u32, &'static str>;
type Action<'b> = WriteAction<'b, u8, &'static str, u32, &'static str>;
type Step<'b> = WriteStep<'b, u8, &'static str, u32, &'static str>;
type Connect = ConnectStep<u8, Stream, &'static str>;

const CODES: ErrorCodes = ErrorCodes {
    in_progress: 36,
    no_proto_opt: 42,
};

const FAST_OPEN: OptionSetting = OptionSetting {
    option: SocketOption::FastOpen,
    value: 1,
};

fn target() -> SocketAddr {
    SocketAddr::V6(SocketAddrV6 {
        ip: 1,
        port: 80,
        flowinfo: 0,
        scope_id: 0,
    })
}

fn ticket() -> ConnectTicket<u8> {
    ConnectTicket {
        socket: 3,
        addr: target(),
    }
}

fn failure(code: i32, error: &'static str) -> Failure<&'static str> {
    Failure {
        code: Some(code),
        kind: ErrorKind::Other,
        error,
    }
}

fn deferred(reader: Option<&'static str>) -> Stream {
    TcpStream {
        state: TcpStreamState::FastOpenConnect,
        stream: TcpStreamOption::Connecting {
            socket: 3,
            addr: target(),
            reader,
        },
    }
}

fn in_state(state: TcpStreamState) -> Stream {
    TcpStream {
        state,
        stream: TcpStreamOption::Connected(7),
    }
}

fn quietly(action: Action<'_>) -> Step<'_> {
    WriteStep { wake: None, action }
}

#[test]
fn freebsd_connect_sets_the_option_and_records_the_target() {
    let step: Connect = Stream::connect(target());
    assert_eq!(
        step,
        ConnectStep::Do(ConnectAction::NewSocket {
            family: AddressFamily::V6,
            addr: target()
        })
    );
    let event = ConnectEvent::SocketCreated {
        addr: target(),
        result: Ok(3),
    };
    let step: Connect = Stream::resume_connect(event);
    assert_eq!(
        step,
        ConnectStep::Do(ConnectAction::SetOption {
            ticket: ticket(),
            setting: FAST_OPEN
        })
    );
    let event = ConnectEvent::OptionSet {
        ticket: ticket(),
        result: Ok(()),
    };
    let step: Connect = Stream::resume_connect(event);
    assert_eq!(step, ConnectStep::Return(Ok(deferred(None))));
}

#[test]
fn freebsd_connect_errors_come_back() {
    let event = ConnectEvent::SocketCreated {
        addr: target(),
        result: Err("no descriptors"),
    };
    let step: Connect = Stream::resume_connect(event);
    assert_eq!(step, ConnectStep::Return(Err("no descriptors")));

    // There is nothing to fall back on.
    let event = ConnectEvent::OptionSet {
        ticket: ticket(),
        result: Err(failure(42, "no option")),
    };
    let step: Connect = Stream::resume_connect(event);
    assert_eq!(step, ConnectStep::Return(Err("no option")));
}

#[test]
fn freebsd_first_write_needs_no_flag() {
    let mut stream = deferred(Some("reader"));
    let buf = b"hello world";
    assert_eq!(
        stream.poll_write(buf, Event::Start, CODES),
        quietly(WriteAction::SendTo {
            addr: target(),
            fast_open: false,
            payload: buf
        })
    );
    let handover = || Handover {
        then_do: AfterRegister::Sent(4),
        reader: Some("reader"),
    };
    assert_eq!(
        stream.poll_write(buf, Event::SentTo(Ok(4)), CODES),
        quietly(WriteAction::Register {
            socket: 3,
            handover: handover()
        })
    );
    let event = Event::Registered {
        handover: handover(),
        result: Ok(7),
    };
    assert_eq!(
        stream.poll_write(buf, event, CODES),
        WriteStep {
            wake: Some("reader"),
            action: WriteAction::Return(Poll::Ready(Ok(4)))
        }
    );
    assert_eq!(stream, in_state(TcpStreamState::Connected));
}

#[test]
fn freebsd_first_write_without_a_cookie() {
    let mut stream = deferred(Some("reader"));
    let buf = b"hello";
    let handover = || Handover {
        then_do: AfterRegister::Handshake,
        reader: Some("reader"),
    };
    assert_eq!(
        stream.poll_write(buf, Event::SentTo(Err(failure(36, "in progress"))), CODES),
        quietly(WriteAction::Register {
            socket: 3,
            handover: handover()
        })
    );
    let event = Event::Registered {
        handover: handover(),
        result: Ok(7),
    };
    assert_eq!(
        stream.poll_write(buf, event, CODES),
        WriteStep {
            wake: Some("reader"),
            action: WriteAction::PollWriteReady
        }
    );
    assert_eq!(
        stream.poll_write(buf, Event::WriteReady(Poll::Ready(Ok(()))), CODES),
        quietly(WriteAction::TakeError { sent: None })
    );
    let event = Event::SocketError {
        sent: None,
        result: Ok(None),
    };
    assert_eq!(
        stream.poll_write(buf, event, CODES),
        quietly(WriteAction::PollWrite(buf))
    );
    assert_eq!(stream, in_state(TcpStreamState::Connected));
}

#[test]
fn freebsd_write_errors_come_back() {
    let mut stream = deferred(None);
    // The number of another system.
    assert_eq!(
        stream.poll_write(b"x", Event::SentTo(Err(failure(115, "odd"))), CODES),
        quietly(WriteAction::Return(Poll::Ready(Err("odd"))))
    );
    assert_eq!(stream, deferred(None));

    let mut stream = in_state(TcpStreamState::FastOpenConnecting);
    let event = Event::SocketError {
        sent: None,
        result: Ok(Some("refused")),
    };
    assert_eq!(
        stream.poll_write(b"x", event, CODES),
        quietly(WriteAction::Return(Poll::Ready(Err("refused"))))
    );
    let event = Event::SocketError {
        sent: None,
        result: Err("bad descriptor"),
    };
    assert_eq!(
        stream.poll_write(b"x", event, CODES),
        quietly(WriteAction::Return(Poll::Ready(Err("bad descriptor"))))
    );
    assert_eq!(
        stream.poll_write(b"x", Event::WriteReady(Poll::Ready(Err("gone"))), CODES),
        quietly(WriteAction::Return(Poll::Ready(Err("gone"))))
    );
    assert_eq!(
        stream.poll_write(b"x", Event::WriteReady(Poll::Pending), CODES),
        quietly(WriteAction::Return(Poll::Pending))
    );
    assert_eq!(stream, in_state(TcpStreamState::FastOpenConnecting));
}

#[test]
fn freebsd_stream_is_lost_where_the_event_loop_refuses_it() {
    let mut stream = TcpStream {
        state: TcpStreamState::FastOpenConnect,
        stream: TcpStreamOption::Empty,
    };
    let event = Event::Registered {
        handover: Handover {
            then_do: AfterRegister::Handshake,
            reader: None,
        },
        result: Err("too many"),
    };
    assert_eq!(
        stream.poll_write(b"x", event, CODES),
        quietly(WriteAction::Return(Poll::Ready(Err("too many"))))
    );
    assert_eq!(stream.stream, TcpStreamOption::Empty);
}

#[test]
fn freebsd_resource_follows_the_state() {
    let mut before = deferred(Some("first"));
    assert_eq!(before.as_raw_fd(), Handle::Socket(&3));
    assert_eq!(before.peer_addr(), PeerAddr::Known(target()));
    assert_eq!(before.poll_flush(), FlushAction::Done);
    assert_eq!(before.poll_shutdown(), FlushAction::Done);
    assert_eq!(before.poll_read("second"), ReadAction::Park { wake: Some("first") });

    let mut after = Stream::from(7);
    assert_eq!(after.as_raw_fd(), Handle::Stream(&7));
    assert_eq!(after.peer_addr(), PeerAddr::Ask(&7));
    assert_eq!(after.poll_flush(), FlushAction::Delegate);
    assert_eq!(after.poll_read("third"), ReadAction::PollRead);
    let step: Step<'_> = after.poll_write(b"x", Event::Start, CODES);
    assert_eq!(step, quietly(WriteAction::PollWrite(b"x")));
}

#[test]
fn freebsd_option_is_a_switch() {
    let call = set_tcp_fastopen(&5u8);
    assert_eq!(*call.socket, 5);
    assert_eq!(call.setting, FAST_OPEN);
}
