//! The choice between the streams of the platforms.

use vstd::prelude::*;

use crate::io::ErrorCodes;
use crate::sys::unix::bsd::{freebsd, macos};
use crate::sys::unix::linux;
use crate::sys::{windows, ConnectEvent, OptionSetting, TcpStreamOption, WriteEvent, WriteStep};

verus! {

/// A family of operating systems that share their way of TFO.
#[derive(Clone, Copy, Debug, PartialEq, Eq, Structural)]
pub enum Platform {
    /// Linux and Android.
    Linux,
    /// FreeBSD, OpenBSD, NetBSD and DragonFly BSD.
    FreeBsd,
    /// macOS, iOS, watchOS and tvOS.
    Macos,
    /// Windows.
    Windows,
}

/// The stream of a platform.
#[derive(Debug, PartialEq, Eq)]
pub enum SysTcpStream<S, C, W, O> {
    Linux(linux::TcpStream<S, C, W>),
    FreeBsd(freebsd::TcpStream<S, C, W>),
    Macos(macos::TcpStream<C>),
    Windows(windows::TcpStream<S, C, W, O>),
}

/// How far the connection of a stream is, in terms that all platforms share.
pub enum Phase {
    /// The first write has to send the connection request.
    FirstWrite,
    /// The connection is being made.
    Connecting,
    /// There is a connection.
    Connected,
}

impl Platform {
    /// The setting that makes a listener accept TFO.
    pub open spec fn fast_open(self) -> OptionSetting {
        match self {
            Platform::Linux => linux::fast_open(),
            Platform::FreeBsd => freebsd::fast_open(),
            Platform::Macos => macos::fast_open(),
            Platform::Windows => windows::fast_open(),
        }
    }

    /// The setting of a socket that is going to listen.
    ///
    /// On most platforms it is `TCP_FASTOPEN`, which could be set before or after the socket listens.
    /// On macOS that can be set on a socket that listens only, and `TCP_FASTOPEN_FORCE_ENABLE` on one
    /// that does not only.
    pub open spec fn socket_setting(self) -> OptionSetting {
        match self {
            Platform::Macos => macos::fast_open_force_enable(),
            _ => self.fast_open(),
        }
    }
}

impl<S, C, W, O> SysTcpStream<S, C, W, O> {
    /// The platform of the stream.
    pub open spec fn platform(&self) -> Platform {
        match self {
            SysTcpStream::Linux(_) => Platform::Linux,
            SysTcpStream::FreeBsd(_) => Platform::FreeBsd,
            SysTcpStream::Macos(_) => Platform::Macos,
            SysTcpStream::Windows(_) => Platform::Windows,
        }
    }

    /// The state of the stream and its resource go together.
    pub open spec fn wf(&self) -> bool {
        match self {
            SysTcpStream::Linux(stream) => stream.wf(),
            SysTcpStream::FreeBsd(stream) => stream.wf(),
            SysTcpStream::Macos(_) => true,
            SysTcpStream::Windows(stream) => stream.wf(),
        }
    }

    /// The resource of the stream.
    pub open spec fn resource(&self) -> TcpStreamOption<S, C, W> {
        match self {
            SysTcpStream::Linux(stream) => stream.stream,
            SysTcpStream::FreeBsd(stream) => stream.stream,
            SysTcpStream::Macos(stream) => TcpStreamOption::Connected(stream.inner),
            SysTcpStream::Windows(stream) => stream.stream,
        }
    }

    /// The stream with another resource in place of the one that it has.
    pub open spec fn with_resource(self, resource: TcpStreamOption<S, C, W>) -> Self {
        match self {
            SysTcpStream::Linux(stream) => SysTcpStream::Linux(
                linux::TcpStream { stream: resource, ..stream },
            ),
            SysTcpStream::FreeBsd(stream) => SysTcpStream::FreeBsd(
                freebsd::TcpStream { stream: resource, ..stream },
            ),
            SysTcpStream::Macos(stream) => SysTcpStream::Macos(
                macos::TcpStream { inner: resource->Connected_0, ..stream },
            ),
            SysTcpStream::Windows(stream) => SysTcpStream::Windows(
                windows::TcpStream { stream: resource, ..stream },
            ),
        }
    }

    /// The stream has not lost its socket.
    pub open spec fn usable(&self) -> bool {
        &&& self.wf()
        &&& !(self.resource() is Empty)
    }

    /// How far the connection is.
    pub open spec fn phase(&self) -> Phase {
        match self {
            SysTcpStream::Linux(stream) => match stream.state {
                linux::TcpStreamState::Connected => Phase::Connected,
                linux::TcpStreamState::FastOpenConnect => Phase::FirstWrite,
                linux::TcpStreamState::FastOpenConnecting => Phase::Connecting,
                linux::TcpStreamState::FastOpenWrite => Phase::FirstWrite,
            },
            SysTcpStream::FreeBsd(stream) => match stream.state {
                freebsd::TcpStreamState::Connected => Phase::Connected,
                freebsd::TcpStreamState::FastOpenConnect => Phase::FirstWrite,
                freebsd::TcpStreamState::FastOpenConnecting => Phase::Connecting,
            },
            SysTcpStream::Macos(stream) => match stream.state {
                macos::TcpStreamState::Connected => Phase::Connected,
                macos::TcpStreamState::FastOpenWrite => Phase::FirstWrite,
            },
            SysTcpStream::Windows(stream) => match stream.state {
                windows::TcpStreamState::Connected => Phase::Connected,
                windows::TcpStreamState::FastOpenConnect => Phase::FirstWrite,
                windows::TcpStreamState::FastOpenConnecting(_) => Phase::Connecting,
            },
        }
    }

    /// A connected stream of `platform`.
    pub open spec fn spec_from(platform: Platform, stream: C) -> Self {
        match platform {
            Platform::Linux => SysTcpStream::Linux(linux::TcpStream::spec_from(stream)),
            Platform::FreeBsd => SysTcpStream::FreeBsd(freebsd::TcpStream::spec_from(stream)),
            Platform::Macos => SysTcpStream::Macos(macos::TcpStream::spec_from(stream)),
            Platform::Windows => SysTcpStream::Windows(windows::TcpStream::spec_from(stream)),
        }
    }

    /// The events that can occur in a write, given how far the connection is.
    pub open spec fn accepts<E>(&self, event: WriteEvent<S, C, W, O, E>) -> bool {
        match self {
            SysTcpStream::Linux(stream) => stream.accepts(event),
            SysTcpStream::FreeBsd(stream) => stream.accepts(event),
            SysTcpStream::Macos(stream) => stream.accepts(event),
            SysTcpStream::Windows(stream) => stream.accepts(event),
        }
    }

    /// What a write of `buf` does upon an event: the stream after it, and the next step.
    pub open spec fn spec_poll_write<'b, E>(
        self,
        buf: &'b [u8],
        event: WriteEvent<S, C, W, O, E>,
        codes: ErrorCodes,
    ) -> (Self, WriteStep<'b, S, W, O, E>)
        recommends
            self.wf(),
            self.accepts(event),
    {
        match self {
            SysTcpStream::Linux(stream) => {
                let (stream, step) = stream.spec_poll_write(buf, event, codes);
                (SysTcpStream::Linux(stream), step)
            },
            SysTcpStream::FreeBsd(stream) => {
                let (stream, step) = stream.spec_poll_write(buf, event, codes);
                (SysTcpStream::FreeBsd(stream), step)
            },
            SysTcpStream::Macos(stream) => {
                let (stream, step) = stream.spec_poll_write(buf, event);
                (SysTcpStream::Macos(stream), step)
            },
            SysTcpStream::Windows(stream) => {
                let (stream, step) = stream.spec_poll_write(buf, event);
                (SysTcpStream::Windows(stream), step)
            },
        }
    }

    /// The events that can occur in the connection of a stream.
    pub open spec fn accepts_connect<E>(platform: Platform, event: ConnectEvent<S, C, E>) -> bool {
        match platform {
            Platform::Linux => linux::TcpStream::<S, C, W>::accepts_connect(event),
            Platform::FreeBsd => freebsd::TcpStream::<S, C, W>::accepts_connect(event),
            Platform::Macos => macos::TcpStream::<C>::accepts_connect(event),
            Platform::Windows => windows::TcpStream::<S, C, W, O>::accepts_connect(event),
        }
    }
}

} // verus!
