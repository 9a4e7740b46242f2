use tokio_tfo::addr::{AddressFamily, SocketAddr, SocketAddrV4, SocketAddrV6};
use tokio_tfo::io::{ErrorKind, Failure, Poll};
use tokio_tfo::sys::windows::{
    completed, connect_result, outcome, overlapped_result, set_tcp_fastopen, transferred, Overlapped, TcpStream, TcpStreamState,
};
use tokio_tfo::sys::{
    AfterRegister, ConnectAction, ConnectEvent, ConnectStep, ConnectTicket, FlushAction, Handle, Handover, OptionSetting,
    PeerAddr, ReadAction, SocketOption, TcpStreamOption, WriteAction, WriteEvent, WriteStep,
};

type Stream = TcpStream<u8, u16, &'static str, u32>;
type Event = WriteEvent<u8, u16, &'static str, u32, &'static str>;
type Action<'b> = WriteAction<'b, u8, &'static str, u32, &'static str>;
type Step<'b> = WriteStep<'b, u8, &'static str, u32, &'static str>;
type Connect = ConnectStep<u8, Stream, &'static str>;

const FAST_OPEN: OptionSetting = OptionSetting {
    option: SocketOption::FastOpen,
    value: 1,
};

fn target() -> SocketAddr {
    SocketAddr::V4(SocketAddrV4 {
        ip: 0x08080808,
        port: 443,
    })
}

fn ticket() -> ConnectTicket<u8> {
    ConnectTicket {
        socket: 3,
        addr: target(),
    }
}

fn failure(code: i32, error: &'static str) -> Failure<&'static str> {
    Failure {
        code: Some(code),
        kind: ErrorKind::Other,
        error,
    }
}

fn deferred(reader: Option<&'static str>) -> Stream {
    TcpStream {
        stream: TcpStreamOption::Connecting {
            socket: 3,
            addr: target(),
            reader,
        },
        state: TcpStreamState::FastOpenConnect,
    }
}

fn in_state(state: TcpStreamState<u32>) -> Stream {
    TcpStream {
        stream: TcpStreamOption::Connected(7),
        state,
    }
}

fn quietly(action: Action<'_>) -> Step<'_> {
    WriteStep { wake: None, action }
}

#[test]
fn windows_connect_binds_the_socket() {
    let step: Connect = Stream::connect(target());
    assert_eq!(
        step,
        ConnectStep::Do(ConnectAction::NewSocket {
            family: AddressFamily::V4,
            addr: target()
        })
    );
    let event = ConnectEvent::SocketCreated {
        addr: target(),
        result: Ok(3),
    };
    let step: Connect = Stream::resume_connect(event);
    assert_eq!(
        step,
        ConnectStep::Do(ConnectAction::SetOption {
            ticket: ticket(),
            setting: FAST_OPEN
        })
    );
    let event = ConnectEvent::OptionSet {
        ticket: ticket(),
        result: Ok(()),
    };
    let step: Connect = Stream::resume_connect(event);
    assert_eq!(
        step,
        ConnectStep::Do(ConnectAction::Bind {
            ticket: ticket(),
            local: SocketAddr::V4(SocketAddrV4 { ip: 0, port: 0 })
        })
    );
    let event = ConnectEvent::Bound {
        ticket: ticket(),
        result: Ok(()),
    };
    let step: Connect = Stream::resume_connect(event);
    assert_eq!(step, ConnectStep::Return(Ok(deferred(None))));
}

#[test]
fn windows_local_address_has_the_family_of_the_target() {
    let addr = SocketAddr::V6(SocketAddrV6 {
        ip: 7,
        port: 80,
        flowinfo: 1,
        scope_id: 4,
    });
    let event = ConnectEvent::OptionSet {
        ticket: ConnectTicket { socket: 3, addr },
        result: Ok(()),
    };
    let step: Connect = Stream::resume_connect(event);
    assert_eq!(
        step,
        ConnectStep::Do(ConnectAction::Bind {
            ticket: ConnectTicket { socket: 3, addr },
            local: SocketAddr::V6(SocketAddrV6 {
                ip: 0,
                port: 0,
                flowinfo: 0,
                scope_id: 0
            })
        })
    );
}

#[test]
fn windows_socket_may_be_bound_already() {
    let event = ConnectEvent::Bound {
        ticket: ticket(),
        result: Err(failure(10022, "bound")),
    };
    let step: Connect = Stream::resume_connect(event);
    assert_eq!(step, ConnectStep::Return(Ok(deferred(None))));
}

#[test]
fn windows_connect_errors_come_back() {
    let events: [ConnectEvent<u8, u16, &'static str>; 3] = [
        ConnectEvent::SocketCreated {
            addr: target(),
            result: Err("failed"),
        },
        ConnectEvent::OptionSet {
            ticket: ticket(),
            result: Err(failure(10042, "failed")),
        },
        ConnectEvent::Bound {
            ticket: ticket(),
            result: Err(failure(10048, "failed")),
        },
    ];
    for event in events {
        let step: Connect = Stream::resume_connect(event);
        assert_eq!(step, ConnectStep::Return(Err("failed")));
    }
}

#[test]
fn windows_first_write_that_completes_at_once() {
    let mut stream = deferred(Some("reader"));
    let buf = b"hello world";
    assert_eq!(
        stream.poll_write(buf, Event::Start),
        quietly(WriteAction::ConnectEx {
            addr: target(),
            payload: buf
        })
    );
    let handover = || Handover {
        then_do: AfterRegister::Sent(11),
        reader: Some("reader"),
    };
    let event = Event::ConnectExReturned {
        overlapped: 99,
        result: Ok(11),
    };
    assert_eq!(
        stream.poll_write(buf, event),
        quietly(WriteAction::UpdateContext {
            socket: 3,
            handover: handover()
        })
    );
    let event = Event::ContextUpdated {
        socket: 3,
        handover: handover(),
        result: Ok(()),
    };
    assert_eq!(
        stream.poll_write(buf, event),
        quietly(WriteAction::Register {
            socket: 3,
            handover: handover()
        })
    );
    let event = Event::Registered {
        handover: handover(),
        result: Ok(7),
    };
    assert_eq!(
        stream.poll_write(buf, event),
        WriteStep {
            wake: Some("reader"),
            action: WriteAction::Return(Poll::Ready(Ok(11)))
        }
    );
    assert_eq!(stream, in_state(TcpStreamState::Connected));
}

#[test]
fn windows_first_write_in_the_background() {
    let mut stream = deferred(Some("reader"));
    let buf = b"hello";
    let event = Event::ConnectExReturned {
        overlapped: 99,
        result: Err(failure(997, "pending")),
    };
    let handover = || Handover {
        then_do: AfterRegister::Overlapped(99),
        reader: Some("reader"),
    };
    assert_eq!(
        stream.poll_write(buf, event),
        quietly(WriteAction::Register {
            socket: 3,
            handover: handover()
        })
    );
    let event = Event::Registered {
        handover: handover(),
        result: Ok(7),
    };
    assert_eq!(
        stream.poll_write(buf, event),
        WriteStep {
            wake: Some("reader"),
            action: WriteAction::PollWriteReady
        }
    );
    let connecting = || in_state(TcpStreamState::FastOpenConnecting(99));
    assert_eq!(stream, connecting());
    assert_eq!(
        stream.poll_write(buf, Event::WriteReady(Poll::Pending)),
        quietly(WriteAction::Return(Poll::Pending))
    );
    assert_eq!(
        stream.poll_write(buf, Event::WriteReady(Poll::Ready(Ok(())))),
        quietly(WriteAction::TryConnectResult)
    );
    let event = Event::ConnectResult(Err(Failure {
        code: None,
        kind: ErrorKind::WouldBlock,
        error: "incomplete",
    }));
    assert_eq!(
        stream.poll_write(buf, event),
        quietly(WriteAction::PollWriteReady)
    );
    assert_eq!(stream, connecting());
    assert_eq!(
        stream.poll_write(buf, Event::ConnectResult(Ok(5))),
        quietly(WriteAction::TakeError { sent: Some(5) })
    );
    assert_eq!(stream, connecting());
    let event = Event::SocketError {
        sent: Some(5),
        result: Ok(None),
    };
    assert_eq!(
        stream.poll_write(buf, event),
        quietly(WriteAction::Return(Poll::Ready(Ok(5))))
    );
    assert_eq!(stream, in_state(TcpStreamState::Connected));
}

#[test]
fn windows_pending_error_does_not_undo_a_write() {
    let mut stream = in_state(TcpStreamState::FastOpenConnecting(99));
    let event = Event::SocketError {
        sent: Some(5),
        result: Ok(Some("stale")),
    };
    assert_eq!(
        stream.poll_write(b"hello", event),
        quietly(WriteAction::Return(Poll::Ready(Ok(5))))
    );
    assert_eq!(stream, in_state(TcpStreamState::Connected));
}

#[test]
fn windows_write_errors_come_back() {
    let mut stream = deferred(None);
    let event = Event::ConnectExReturned {
        overlapped: 99,
        result: Err(failure(10061, "refused")),
    };
    assert_eq!(
        stream.poll_write(b"x", event),
        quietly(WriteAction::Return(Poll::Ready(Err("refused"))))
    );
    assert_eq!(stream, deferred(None));

    let connecting = || in_state(TcpStreamState::FastOpenConnecting(99));
    let events: [Event; 3] = [
        Event::WriteReady(Poll::Ready(Err("failed"))),
        Event::ConnectResult(Err(failure(10060, "failed"))),
        Event::SocketError {
            sent: Some(5),
            result: Err("failed"),
        },
    ];
    for event in events {
        let mut stream = connecting();
        assert_eq!(
            stream.poll_write(b"x", event),
            quietly(WriteAction::Return(Poll::Ready(Err("failed"))))
        );
        assert_eq!(stream, connecting());
    }
}

#[test]
fn windows_stream_is_lost_where_its_context_or_registration_fails() {
    let lost = || TcpStream {
        stream: TcpStreamOption::Empty,
        state: TcpStreamState::FastOpenConnect,
    };
    let handover = || Handover {
        then_do: AfterRegister::Sent(1),
        reader: Some("reader"),
    };
    let events: [Event; 2] = [
        Event::ContextUpdated {
            socket: 3,
            handover: handover(),
            result: Err("failed"),
        },
        Event::Registered {
            handover: handover(),
            result: Err("failed"),
        },
    ];
    for event in events {
        let mut stream: Stream = lost();
        assert_eq!(
            stream.poll_write(b"x", event),
            quietly(WriteAction::Return(Poll::Ready(Err("failed"))))
        );
        assert_eq!(stream, lost());
    }
}

#[test]
fn windows_overlapped_results() {
    assert_eq!(overlapped_result::<&str>(Ok(5)), Overlapped::Connected(5));
    assert_eq!(overlapped_result(Err(failure(996, "incomplete"))), Overlapped::Incomplete);
    assert_eq!(
        overlapped_result(Err(failure(997, "pending"))),
        Overlapped::Failed("pending")
    );
}

#[test]
fn windows_fetched_results_are_reported_to_the_event_loop() {
    assert_eq!(outcome(Overlapped::Connected(5), "would block"), Ok(5));
    assert_eq!(outcome(Overlapped::Incomplete, "would block"), Err("would block"));
    assert_eq!(outcome(Overlapped::Failed("timed out"), "would block"), Err("timed out"));
}

#[test]
fn windows_context_decides_what_a_background_connection_gives() {
    let updated: Result<(), &str> = Ok(());
    assert_eq!(connect_result(5, updated), Ok(5));
    assert_eq!(connect_result(0, updated), Ok(0));
    assert_eq!(connect_result(5, Err("no context")), Err("no context"));
}

#[test]
fn windows_return_values() {
    assert_eq!(completed(0, failure(1, "old")), Ok(()));
    assert_eq!(completed(1, failure(1, "old")), Ok(()));
    assert_eq!(completed(-1, failure(10022, "new")), Err(failure(10022, "new")));
    assert_eq!(transferred(1, 5, failure(1, "old")), Ok(5));
    assert_eq!(transferred(0, 5, failure(997, "new")), Err(failure(997, "new")));
    assert_eq!(transferred(2, 5, failure(997, "new")), Err(failure(997, "new")));
}

#[test]
fn windows_resource_follows_the_state() {
    let mut before = deferred(None);
    assert_eq!(before.as_raw_socket(), Handle::Socket(&3));
    assert_eq!(before.peer_addr(), PeerAddr::Known(target()));
    assert_eq!(before.poll_flush(), FlushAction::Done);
    assert_eq!(before.poll_shutdown(), FlushAction::Done);
    assert_eq!(before.poll_read("reader"), ReadAction::Park { wake: None });
    assert_eq!(before, deferred(Some("reader")));

    let mut after = Stream::from(7);
    assert_eq!(after.as_raw_socket(), Handle::Stream(&7));
    assert_eq!(after.peer_addr(), PeerAddr::Ask(&7));
    assert_eq!(after.poll_shutdown(), FlushAction::Delegate);
    assert_eq!(after.poll_read("reader"), ReadAction::PollRead);
    assert_eq!(
        after.poll_write(b"x", Event::Start),
        quietly(WriteAction::PollWrite(b"x"))
    );
}

#[test]
fn windows_option_is_a_switch() {
    let call = set_tcp_fastopen(&5u8);
    assert_eq!(*call.socket, 5);
    assert_eq!(call.setting, FAST_OPEN);
}
