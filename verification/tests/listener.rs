use tokio_tfo::addr::{AddressFamily, SocketAddr, SocketAddrV4, SocketAddrV6};
use tokio_tfo::io::Poll;
use tokio_tfo::listener::{ListenAction, ListenEvent, ListenStep, ListenTicket, BACKLOG};
use tokio_tfo::sys::platform::Platform;
use tokio_tfo::sys::{OptionSetting, SocketOp, SocketOption};
use tokio_tfo::{TfoListener, TfoStream};

type Listener = TfoListener<u16>;
type Step = ListenStep<u8, u32, u16, &'static str>;
type Event = ListenEvent<u8, u32, u16, &'static str>;
type Stream = TfoStream<u8, u64, &'static str, u32>;

const ALL: [Platform; 4] = [Platform::Linux, Platform::FreeBsd, Platform::Macos, Platform::Windows];

fn addr() -> SocketAddr {
    SocketAddr::V4(SocketAddrV4 {
        ip: 0x7f000001,
        port: 0,
    })
}

fn ticket() -> ListenTicket<u8> {
    ListenTicket {
        socket: 3,
        addr: addr(),
    }
}

fn fast_open(value: i32) -> OptionSetting {
    OptionSetting {
        option: SocketOption::FastOpen,
        value,
    }
}

/// The actions of a setup in which everything succeeds, by name.
fn actions(platform: Platform, start: Step) -> (Vec<&'static str>, Listener) {
    let mut names = vec![];
    let mut step = start;
    loop {
        let action = match step {
            ListenStep::Return(result) => return (names, result.unwrap()),
            ListenStep::Do(action) => action,
        };
        let event = match action {
            ListenAction::NewSocket { addr, .. } => {
                names.push("socket");
                Event::SocketCreated { addr, result: Ok(3) }
            }
            ListenAction::SetReuseAddr { ticket, value } => {
                assert!(value);
                names.push("reuse");
                Event::ReuseAddrSet { ticket, result: Ok(()) }
            }
            ListenAction::SetOption { ticket, setting } => {
                names.push(match setting.option {
                    SocketOption::FastOpen => "fast open",
                    SocketOption::FastOpenForceEnable => "force enable",
                    SocketOption::FastOpenConnect => "fast open connect",
                });
                Event::OptionSet { ticket, result: Ok(()) }
            }
            ListenAction::Bind(ticket) => {
                assert_eq!(ticket.addr, addr());
                names.push("bind");
                Event::Bound { ticket, result: Ok(()) }
            }
            ListenAction::Listen { socket, backlog } => {
                assert_eq!((socket, backlog), (3, 1024));
                names.push("listen");
                Event::Listening(Ok(9))
            }
            ListenAction::SetNonblocking(listener) => {
                names.push("nonblocking");
                Event::NonblockingSet {
                    listener,
                    result: Ok(()),
                }
            }
            ListenAction::Register(listener) => {
                assert_eq!(listener, 12);
                names.push("register");
                Event::Registered(Ok(9))
            }
            ListenAction::SetListenerOption { listener, setting } => {
                assert_eq!(setting.option, SocketOption::FastOpen);
                names.push("fast open listener");
                Event::ListenerOptionSet {
                    listener,
                    result: Ok(()),
                }
            }
        };
        step = Listener::resume(platform, event);
    }
}

#[test]
fn bind_begins_with_a_socket_of_the_family() {
    let step: Step = Listener::bind(addr());
    assert_eq!(
        step,
        ListenStep::Do(ListenAction::NewSocket {
            family: AddressFamily::V4,
            addr: addr()
        })
    );
    let v6 = SocketAddr::V6(SocketAddrV6 {
        ip: 0,
        port: 80,
        flowinfo: 0,
        scope_id: 0,
    });
    let step: Step = Listener::bind(v6);
    assert_eq!(
        step,
        ListenStep::Do(ListenAction::NewSocket {
            family: AddressFamily::V6,
            addr: v6
        })
    );
}

#[test]
fn bind_goes_through_its_steps_in_order() {
    for platform in [Platform::Linux, Platform::FreeBsd] {
        let (names, listener) = actions(platform, Listener::bind(addr()));
        assert_eq!(names, ["socket", "reuse", "fast open", "bind", "listen"]);
        assert_eq!(listener, TfoListener { platform, inner: 9 });
    }
    let (names, listener) = actions(Platform::Windows, Listener::bind(addr()));
    assert_eq!(names, ["socket", "fast open", "bind", "listen"]);
    assert_eq!(listener.platform, Platform::Windows);
    let (names, listener) = actions(Platform::Macos, Listener::bind(addr()));
    assert_eq!(
        names,
        ["socket", "reuse", "force enable", "bind", "listen", "fast open listener"]
    );
    assert_eq!(listener.inner, 9);
}

#[test]
fn option_is_set_on_what_becomes_the_listener() {
    // On the socket that is then bound and made to listen.
    let set = Event::OptionSet {
        ticket: ticket(),
        result: Ok(()),
    };
    assert_eq!(
        Listener::resume(Platform::Linux, set),
        ListenStep::Do(ListenAction::Bind(ticket()))
    );
    let bound = Event::Bound {
        ticket: ticket(),
        result: Ok(()),
    };
    assert_eq!(
        Listener::resume(Platform::Linux, bound),
        ListenStep::Do(ListenAction::Listen {
            socket: 3,
            backlog: 1024
        })
    );
    assert_eq!(
        Listener::resume(Platform::Linux, Event::Listening(Ok(9))),
        ListenStep::Return(Ok(TfoListener {
            platform: Platform::Linux,
            inner: 9
        }))
    );
    // On the listener itself.
    assert_eq!(
        Listener::resume(Platform::Macos, Event::Listening(Ok(9))),
        ListenStep::Do(ListenAction::SetListenerOption {
            listener: 9,
            setting: fast_open(1)
        })
    );
    let set = Event::ListenerOptionSet {
        listener: 9,
        result: Ok(()),
    };
    assert_eq!(
        Listener::resume(Platform::Macos, set),
        ListenStep::Return(Ok(TfoListener {
            platform: Platform::Macos,
            inner: 9
        }))
    );
}

#[test]
fn listeners_that_exist_get_the_option() {
    for platform in ALL {
        let (names, listener) = actions(platform, Listener::from_std(12));
        assert_eq!(names, ["nonblocking", "register", "fast open listener"]);
        assert_eq!(listener, TfoListener { platform, inner: 9 });
        let (names, listener) = actions(platform, Listener::from_tokio(platform, 10));
        assert_eq!(names, ["fast open listener"]);
        assert_eq!(listener, TfoListener { platform, inner: 10 });
    }
}

#[test]
fn option_has_the_value_of_the_platform() {
    for (platform, value) in [
        (Platform::Linux, 1024),
        (Platform::FreeBsd, 1),
        (Platform::Macos, 1),
        (Platform::Windows, 1),
    ] {
        let step: Step = Listener::from_tokio(platform, 10);
        assert_eq!(
            step,
            ListenStep::Do(ListenAction::SetListenerOption {
                listener: 10,
                setting: fast_open(value)
            })
        );
    }
    let event = || Event::ReuseAddrSet {
        ticket: ticket(),
        result: Ok(()),
    };
    assert_eq!(
        Listener::resume(Platform::Linux, event()),
        ListenStep::Do(ListenAction::SetOption {
            ticket: ticket(),
            setting: fast_open(1024)
        })
    );
    assert_eq!(
        Listener::resume(Platform::Macos, event()),
        ListenStep::Do(ListenAction::SetOption {
            ticket: ticket(),
            setting: OptionSetting {
                option: SocketOption::FastOpenForceEnable,
                value: 1
            }
        })
    );
}

#[test]
fn setup_errors_come_back() {
    for platform in ALL {
        let events: [Event; 7] = [
            Event::SocketCreated {
                addr: addr(),
                result: Err("failed"),
            },
            Event::ReuseAddrSet {
                ticket: ticket(),
                result: Err("failed"),
            },
            Event::Bound {
                ticket: ticket(),
                result: Err("failed"),
            },
            Event::Listening(Err("failed")),
            Event::NonblockingSet {
                listener: 12,
                result: Err("failed"),
            },
            Event::Registered(Err("failed")),
            Event::ListenerOptionSet {
                listener: 9,
                result: Err("failed"),
            },
        ];
        for event in events {
            assert_eq!(Listener::resume(platform, event), ListenStep::Return(Err("failed")));
        }
    }
}

#[test]
fn forcing_the_option_may_fail() {
    for platform in ALL {
        let event = Event::OptionSet {
            ticket: ticket(),
            result: Err("failed"),
        };
        let expected = if platform == Platform::Macos {
            ListenStep::Do(ListenAction::Bind(ticket()))
        } else {
            ListenStep::Return(Err("failed"))
        };
        assert_eq!(Listener::resume(platform, event), expected);
    }
}

#[test]
fn accepted_streams_are_connected() {
    for platform in ALL {
        let listener = TfoListener { platform, inner: 9u16 };
        let accepted: Poll<Result<(u64, SocketAddr), &str>> = Poll::Ready(Ok((7, addr())));
        assert_eq!(
            listener.poll_accept(accepted),
            Poll::Ready(Ok((Stream::from(platform, 7), addr())))
        );
        let failed: Poll<Result<(u64, SocketAddr), &str>> = Poll::Ready(Err("failed"));
        let answer: Poll<Result<(Stream, SocketAddr), &str>> = listener.poll_accept(failed);
        assert_eq!(answer, Poll::Ready(Err("failed")));
        let waiting: Poll<Result<(u64, SocketAddr), &str>> = Poll::Pending;
        let answer: Poll<Result<(Stream, SocketAddr), &str>> = listener.poll_accept(waiting);
        assert_eq!(answer, Poll::Pending);
    }
}

#[test]
fn local_address_is_that_of_the_inner_listener() {
    let listener = TfoListener {
        platform: Platform::Linux,
        inner: 9u16,
    };
    let call = listener.local_addr();
    assert_eq!(*call.target, 9);
    assert_eq!(call.op, SocketOp::LocalAddr);
}

#[test]
fn backlog_is_that_of_the_event_loop() {
    assert_eq!(BACKLOG, 1024);
}
