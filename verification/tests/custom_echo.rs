//! An echo over a network in memory: what a socket sends arrives at the other end of its connection.

use tokio_tfo::addr::{AddressFamily, SocketAddr, SocketAddrV4};
use tokio_tfo::io::{ErrorCodes, ErrorKind, Failure, Poll};
use tokio_tfo::listener::{ListenAction, ListenEvent, ListenStep};
use tokio_tfo::sys::platform::Platform;
use tokio_tfo::sys::unix::{first_send, outcome};
use tokio_tfo::sys::{
    ConnectAction, ConnectEvent, ConnectStep, Handle, PeerAddr, ReadAction, SocketOp, WriteAction, WriteEvent,
};
use tokio_tfo::{TfoListener, TfoStream};

type Stream = TfoStream<usize, usize, &'static str, usize>;
type Event = WriteEvent<usize, usize, &'static str, usize, &'static str>;

const ALL: [Platform; 4] = [Platform::Linux, Platform::FreeBsd, Platform::Macos, Platform::Windows];

const TEST_PAYLOAD: &[u8] = b"hello world";

/// One end of a connection, whose number is that of its socket.
#[derive(Default)]
struct End {
    local: Option<SocketAddr>,
    peer: Option<usize>,
    established: bool,
    received: Vec<u8>,
}

struct Net {
    platform: Platform,
    /// Whether the client has a cookie for the server.
    cookie: bool,
    /// Whether the system knows `TCP_FASTOPEN_CONNECT`.
    knows_option: bool,
    codes: ErrorCodes,
    ends: Vec<End>,
    server: Option<SocketAddr>,
    waiting: Vec<usize>,
}

fn loopback(port: u16) -> SocketAddr {
    SocketAddr::V4(SocketAddrV4 {
        ip: 0x7f000001,
        port,
    })
}

fn failure(code: i32, kind: ErrorKind, error: &'static str) -> Failure<&'static str> {
    Failure {
        code: Some(code),
        kind,
        error,
    }
}

impl Net {
    fn new(platform: Platform, cookie: bool, knows_option: bool) -> Net {
        Net {
            platform,
            cookie,
            knows_option,
            codes: ErrorCodes::host(),
            ends: vec![],
            server: None,
            waiting: vec![],
        }
    }

    fn socket(&mut self, family: AddressFamily) -> usize {
        assert_eq!(family, AddressFamily::V4);
        self.ends.push(End::default());
        self.ends.len() - 1
    }

    /// Sends a connection request from `client`, with as much of `data` as it may carry.
    fn request(&mut self, client: usize, addr: SocketAddr, data: &[u8]) -> Result<usize, ()> {
        assert_eq!(self.server, Some(addr));
        let server = self.socket(AddressFamily::V4);
        self.ends[client].peer = Some(server);
        self.ends[server].peer = Some(client);
        self.ends[server].established = true;
        self.waiting.push(server);
        if self.cookie {
            self.ends[client].established = true;
            self.ends[server].received.extend_from_slice(data);
            Ok(data.len())
        } else {
            Err(())
        }
    }

    /// Lets the handshakes that are under way complete.
    fn advance(&mut self) {
        for end in &mut self.ends {
            end.established = end.established || end.peer.is_some();
        }
    }

    fn send(&mut self, end: usize, data: &[u8]) -> usize {
        assert!(self.ends[end].established);
        let peer = self.ends[end].peer.unwrap();
        self.ends[peer].received.extend_from_slice(data);
        data.len()
    }

    fn listen(&mut self, addr: SocketAddr) -> TfoListener<SocketAddr> {
        let mut step: ListenStep<usize, (), SocketAddr, &'static str> = TfoListener::bind(addr);
        loop {
            let action = match step {
                ListenStep::Return(result) => return result.unwrap(),
                ListenStep::Do(action) => action,
            };
            let event = match action {
                ListenAction::NewSocket { family, addr } => ListenEvent::SocketCreated {
                    addr,
                    result: Ok(self.socket(family)),
                },
                ListenAction::SetReuseAddr { ticket, .. } => ListenEvent::ReuseAddrSet { ticket, result: Ok(()) },
                ListenAction::SetOption { ticket, .. } => ListenEvent::OptionSet { ticket, result: Ok(()) },
                ListenAction::Bind(ticket) => {
                    assert_eq!(ticket.addr, loopback(0));
                    self.ends[ticket.socket].local = Some(loopback(40000));
                    ListenEvent::Bound { ticket, result: Ok(()) }
                }
                ListenAction::Listen { socket, .. } => {
                    self.server = self.ends[socket].local;
                    ListenEvent::Listening(Ok(self.server.unwrap()))
                }
                ListenAction::SetListenerOption { listener, .. } => ListenEvent::ListenerOptionSet {
                    listener,
                    result: Ok(()),
                },
                other => panic!("unexpected {:?}", other),
            };
            step = TfoListener::resume(self.platform, event);
        }
    }

    fn connect(&mut self, socket: usize, addr: SocketAddr) -> Stream {
        let mut support = true;
        let mut step: ConnectStep<usize, Stream, &'static str> =
            Stream::connect_with_socket(self.platform, socket, addr, support);
        loop {
            let action = match step {
                ConnectStep::Return(result) => return result.unwrap(),
                ConnectStep::Do(action) => action,
            };
            let event = match action {
                ConnectAction::SetOption { ticket, .. } => ConnectEvent::OptionSet {
                    ticket,
                    result: if self.platform != Platform::Linux || self.knows_option {
                        Ok(())
                    } else {
                        Err(failure(self.codes.no_proto_opt, ErrorKind::Other, "no option"))
                    },
                },
                // The socket was bound before.
                ConnectAction::Bind { ticket, .. } => ConnectEvent::Bound {
                    ticket,
                    result: Err(failure(10022, ErrorKind::Other, "bound")),
                },
                ConnectAction::Connect(ticket) => {
                    assert_eq!(Some(ticket.addr), self.server);
                    ConnectEvent::Connected(Ok(ticket.socket))
                }
                ConnectAction::ConnectX(ticket) => {
                    assert_eq!(Some(ticket.addr), self.server);
                    ConnectEvent::ConnectXReturned { ticket, result: Ok(()) }
                }
                ConnectAction::Register(socket) => ConnectEvent::Registered(Ok(socket)),
                other => panic!("unexpected {:?}", other),
            };
            step = Stream::resume_connect(self.platform, event, self.codes, &mut support);
        }
    }

    /// Writes once. Tasks that are woken are added to `woken`.
    fn write(&mut self, stream: &mut Stream, data: &[u8], woken: &mut Vec<&'static str>) -> Poll<usize> {
        let addr = self.server.unwrap();
        let mut event = Event::Start;
        loop {
            assert!(!matches!(event, Event::Start) || stream.is_usable());
            let step = stream.poll_write(data, event, self.codes);
            woken.extend(step.wake);
            event = match step.action {
                WriteAction::PollWrite(payload) => {
                    let end = *stream.connected();
                    if !self.ends[end].established {
                        return Poll::Pending;
                    }
                    return Poll::Ready(self.send(end, payload));
                }
                WriteAction::PollWriteReady => {
                    let end = *stream.connected();
                    if self.ends[end].peer.is_some() && !self.ends[end].established {
                        Event::WriteReady(Poll::Pending)
                    } else {
                        Event::WriteReady(Poll::Ready(Ok(())))
                    }
                }
                WriteAction::TakeError { sent } => Event::SocketError {
                    sent,
                    result: Ok(None),
                },
                WriteAction::SendTo {
                    addr,
                    payload,
                    fast_open,
                } => {
                    assert_eq!(fast_open, self.platform == Platform::Linux);
                    let socket = match stream.handle() {
                        Handle::Socket(socket) => *socket,
                        Handle::Stream(_) => panic!("connected"),
                    };
                    Event::SentTo(match self.request(socket, addr, payload) {
                        Ok(n) => Ok(n),
                        Err(()) => Err(failure(self.codes.in_progress, ErrorKind::Other, "in progress")),
                    })
                }
                WriteAction::ConnectEx { addr, payload } => {
                    let socket = match stream.handle() {
                        Handle::Socket(socket) => *socket,
                        Handle::Stream(_) => panic!("connected"),
                    };
                    let result = match self.request(socket, addr, payload) {
                        Ok(n) => Ok(n as u32),
                        Err(()) => Err(failure(997, ErrorKind::Other, "pending")),
                    };
                    Event::ConnectExReturned {
                        overlapped: socket,
                        result,
                    }
                }
                WriteAction::UpdateContext { socket, handover } => Event::ContextUpdated {
                    socket,
                    handover,
                    result: Ok(()),
                },
                WriteAction::Register { socket, handover } => Event::Registered {
                    handover,
                    result: Ok(socket),
                },
                WriteAction::TrySend(payload) => {
                    let end = *stream.connected();
                    let sent = match self.request(end, addr, payload) {
                        Ok(n) => Ok(n),
                        Err(()) => Err(failure(self.codes.in_progress, ErrorKind::Other, "in progress")),
                    };
                    let (connecting, reported) = outcome(first_send(sent, self.codes), "would block");
                    Event::TriedSend {
                        connecting,
                        result: reported.map_err(|error| Failure {
                            code: None,
                            kind: if error == "would block" {
                                ErrorKind::WouldBlock
                            } else {
                                ErrorKind::Other
                            },
                            error,
                        }),
                    }
                }
                // The data of a ConnectEx in the background goes out when the handshake is over.
                WriteAction::TryConnectResult => {
                    let end = *stream.connected();
                    Event::ConnectResult(Ok(self.send(end, data)))
                }
                WriteAction::Return(Poll::Pending) => return Poll::Pending,
                WriteAction::Return(Poll::Ready(result)) => return Poll::Ready(result.unwrap()),
            };
        }
    }

    fn write_all(&mut self, stream: &mut Stream, data: &[u8], woken: &mut Vec<&'static str>) {
        let mut sent = 0;
        while sent < data.len() {
            match self.write(stream, &data[sent..], woken) {
                Poll::Ready(n) => sent += n,
                Poll::Pending => self.advance(),
            }
        }
    }

    fn accept(&mut self, listener: &TfoListener<SocketAddr>) -> Stream {
        let end = self.waiting.remove(0);
        let accepted: Poll<Result<(usize, SocketAddr), &'static str>> = Poll::Ready(Ok((end, loopback(50000))));
        match listener.poll_accept(accepted) {
            Poll::Ready(Ok((stream, peer_addr))) => {
                assert_eq!(peer_addr, loopback(50000));
                stream
            }
            other => panic!("unexpected {:?}", other),
        }
    }

    /// Reads what there is, or waits.
    fn read(&mut self, stream: &mut Stream, reader: &'static str) -> Poll<Vec<u8>> {
        match stream.poll_read(reader) {
            ReadAction::PollRead => {
                let end = *stream.connected();
                Poll::Ready(self.ends[end].received.split_off(0))
            }
            ReadAction::Park { .. } => Poll::Pending,
        }
    }
}

/// Echoes the payload, and returns the tasks that writing it woke.
fn echo(net: &mut Net, reads_before: bool) -> Vec<&'static str> {
    let server = net.listen(loopback(0));
    let local = server.local_addr();
    assert_eq!(local.op, SocketOp::LocalAddr);
    let server_addr = *local.target;
    assert_ne!(server_addr, loopback(0));

    let socket = net.socket(AddressFamily::V4);
    let mut client = net.connect(socket, server_addr);
    if let PeerAddr::Known(addr) = client.peer_addr() {
        assert_eq!(addr, server_addr);
    }
    if reads_before {
        match net.read(&mut client, "reader") {
            Poll::Pending => {}
            Poll::Ready(data) => assert_eq!(data, b""),
        }
    }

    let mut woken = vec![];
    net.write_all(&mut client, TEST_PAYLOAD, &mut woken);

    let mut accepted = net.accept(&server);
    assert!(net.waiting.is_empty());
    match net.read(&mut accepted, "server") {
        Poll::Ready(data) => net.write_all(&mut accepted, &data, &mut vec![]),
        Poll::Pending => panic!("nothing to echo"),
    }

    net.advance();
    assert_eq!(net.read(&mut client, "reader"), Poll::Ready(TEST_PAYLOAD.to_vec()));
    woken
}

#[test]
fn custom_echo() {
    for platform in ALL {
        assert!(echo(&mut Net::new(platform, true, true), false).is_empty());
    }
}

#[test]
fn echo_without_a_cookie() {
    for platform in ALL {
        assert!(echo(&mut Net::new(platform, false, true), false).is_empty());
    }
}

#[test]
fn echo_without_the_option() {
    for cookie in [true, false] {
        assert!(echo(&mut Net::new(Platform::Linux, cookie, false), false).is_empty());
    }
}

#[test]
fn echo_to_a_reader_that_came_first() {
    for platform in [Platform::FreeBsd, Platform::Windows] {
        for cookie in [true, false] {
            assert_eq!(echo(&mut Net::new(platform, cookie, true), true), vec!["reader"]);
        }
    }
    assert_eq!(echo(&mut Net::new(Platform::Linux, true, false), true), vec!["reader"]);
    assert!(echo(&mut Net::new(Platform::Macos, true, true), true).is_empty());
}
