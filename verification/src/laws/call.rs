//! Laws of the numbers that system calls take and return.

use vstd::prelude::*;

use crate::io::{ErrorCodes, Failure};
use crate::sys::platform::Platform;
use crate::sys::unix::bsd::{freebsd, macos};
use crate::sys::unix::{linux, FirstSend};
use crate::sys::windows::Overlapped;
use crate::sys::{unix, windows, SocketOption};

verus! {

/// The option that a listener accepts TFO with is `TCP_FASTOPEN` everywhere. Its value is the length of
/// the queue on Linux, as long as the backlog of a listener, and one elsewhere. The other two options
/// are switches.
pub proof fn law_option_values(platform: Platform)
    ensures
        platform.fast_open().option == SocketOption::FastOpen,
        platform.fast_open().value == (if platform == Platform::Linux {
            1024i32
        } else {
            1i32
        }),
        linux::fast_open() == Platform::Linux.fast_open(),
        freebsd::fast_open() == Platform::FreeBsd.fast_open(),
        macos::fast_open() == Platform::Macos.fast_open(),
        windows::fast_open() == Platform::Windows.fast_open(),
        platform.socket_setting() == platform.fast_open() <==> platform != Platform::Macos,
        Platform::Macos.socket_setting().option == SocketOption::FastOpenForceEnable,
        Platform::Macos.socket_setting().value == 1,
        macos::fast_open_force_enable() == Platform::Macos.socket_setting(),
        linux::fast_open_connect().option == SocketOption::FastOpenConnect,
        linux::fast_open_connect().value == 1,
{
}

/// The numbers of Windows.
pub proof fn law_windows_numbers()
    ensures
        windows::WSAEINVAL == 10022,
        windows::ERROR_IO_PENDING == 997,
        windows::WSA_IO_INCOMPLETE == 996,
        windows::SOCKET_ERROR == -1,
        windows::TRUE == 1,
{
}

/// A first send has sent exactly the bytes that the system says, is connecting exactly if the system
/// says `EINPROGRESS`, and has failed with the error of the system otherwise.
pub proof fn law_first_send_is_what_the_system_says<E>(
    result: Result<usize, Failure<E>>,
    codes: ErrorCodes,
)
    ensures
        ({
            let sent = unix::spec_first_send(result, codes);
            &&& sent is Sent <==> result is Ok
            &&& sent is Sent ==> sent->Sent_0 == result->Ok_0
            &&& sent is Connecting <==> result is Err && result->Err_0.code == Some(
                codes.in_progress,
            )
            &&& sent is Failed ==> sent->Failed_0 == result->Err_0.error
        }),
{
}

/// What the event loop is told of a first send: the bytes if any were sent, `would_block` together with
/// the mark that the stream is connecting if it is, and the error otherwise. What was told gives back
/// which of the three it was.
pub proof fn law_first_send_is_told<E>(sent: FirstSend<E>, would_block: E)
    ensures
        ({
            let (connecting, told) = unix::spec_outcome(sent, would_block);
            &&& connecting <==> sent is Connecting
            &&& told is Ok <==> sent is Sent
            &&& told is Ok ==> told->Ok_0 == sent->Sent_0
            &&& told is Err ==> told->Err_0 == (if connecting {
                would_block
            } else {
                sent->Failed_0
            })
        }),
{
}

/// A `ConnectEx` in the background has sent exactly the bytes that the system says, is not over exactly
/// if the system says `WSA_IO_INCOMPLETE`, and has failed with the error of the system otherwise.
pub proof fn law_overlapped_is_what_the_system_says<E>(result: Result<u32, Failure<E>>)
    ensures
        ({
            let fetched = windows::spec_overlapped_result(result);
            &&& fetched is Connected <==> result is Ok
            &&& fetched is Connected ==> fetched->Connected_0 == result->Ok_0
            &&& fetched is Incomplete <==> result is Err && result->Err_0.code == Some(996i32)
            &&& fetched is Failed ==> fetched->Failed_0 == result->Err_0.error
        }),
{
}

/// What the event loop is told of a `ConnectEx` in the background, and what the write gets in the end:
/// the bytes that were sent exactly if it has connected and its context is set, and otherwise the first
/// error in the way.
pub proof fn law_overlapped_is_told<E>(
    fetched: Overlapped<E>,
    would_block: E,
    n: usize,
    context: Result<(), E>,
)
    ensures
        ({
            let told = windows::spec_outcome(fetched, would_block);
            &&& told is Ok <==> fetched is Connected
            &&& told is Ok ==> told->Ok_0 == fetched->Connected_0
            &&& fetched is Incomplete ==> told->Err_0 == would_block
            &&& fetched is Failed ==> told->Err_0 == fetched->Failed_0
        }),
        ({
            let result = windows::spec_connect_result(n, context);
            &&& result is Ok <==> context is Ok
            &&& result is Ok ==> result->Ok_0 == n
            &&& result is Err ==> result->Err_0 == context->Err_0
        }),
{
}

} // verus!
