# tokio-tfo

TCP Fast Open (TFO) for asynchronous streams and listeners, verified with Verus.

TFO sends the first data of a connection together with the connection request. Every operating system
has its own way to it:

- Linux: the option `TCP_FASTOPEN_CONNECT` (since 4.11), or `sendto` with `MSG_FASTOPEN` (since 3.7);
- FreeBSD and its relatives: `sendto` on a socket with the option `TCP_FASTOPEN`;
- macOS and its relatives: `connectx`;
- Windows: `ConnectEx` on a bound socket with the option `TCP_FASTOPEN`.

## Layout

- `src/` is the library. It makes no system calls: a stream or a listener is a state machine that says
  what has to be done next, and is told what came of it. All four platforms are there, whatever the
  machine is. Sockets, streams of the event loop, wakers and errors pass through it as they are.
  - `stream.rs`, `listener.rs`: `TfoStream` and `TfoListener`.
  - `sys/`: the streams of the platforms, and the words for actions and events.
  - `laws/`: what holds of whole connections, writes and setups, proved from the contracts.
- `app/` performs the actions with tokio and the system calls of the platform, and offers the streams
  and listeners as `AsyncRead` and `AsyncWrite`.
- `tests/` runs the library, among other things over a network in memory.

## What is trusted

The numbers of `EINPROGRESS` and `ENOPROTOOPT` come from `libc`, and differ between systems. The proofs
know that they are a pair that `libc` 0.2.191 defines under these names for one of its targets, and from
that, that the two differ. Everything else in `src/` is proved for any numbers.
