//! Streams on Unix systems.

pub mod bsd;
pub mod linux;

use vstd::prelude::*;

use crate::io::{ErrorCodes, Failure};

verus! {

/// What the return value of a system call means that reports success or failure, such as
/// `setsockopt`: zero is success. `failure` is the last error of the system.
pub fn completed<E>(ret: i32, failure: Failure<E>) -> (result: Result<(), Failure<E>>)
    ensures
        result == (if ret == 0 {
            Ok::<(), Failure<E>>(())
        } else {
            Err::<(), Failure<E>>(failure)
        }),
{
    if ret != 0 {
        Err(failure)
    } else {
        Ok(())
    }
}

/// What the return value of a system call means that sends data, such as `sendto`: the number of
/// bytes that were sent, unless it is negative. `failure` is the last error of the system.
pub fn transferred<E>(ret: isize, failure: Failure<E>) -> (result: Result<usize, Failure<E>>)
    ensures
        result == (if ret >= 0 {
            Ok::<usize, Failure<E>>(ret as usize)
        } else {
            Err::<usize, Failure<E>>(failure)
        }),
{
    if ret >= 0 {
        Ok(ret as usize)
    } else {
        Err(failure)
    }
}

/// What the first send on a stream whose connection request it is to carry has come to.
#[derive(Debug, PartialEq, Eq)]
pub enum FirstSend<E> {
    /// That many bytes were sent, or queued to be sent, with the request.
    Sent(usize),
    /// The connection is being made without data. The stream is not writable before it stands.
    Connecting,
    /// It failed.
    Failed(E),
}

/// What the result of the system call means. A send that is rejected as in progress has begun to make
/// the connection.
pub open spec fn spec_first_send<E>(
    result: Result<usize, Failure<E>>,
    codes: ErrorCodes,
) -> FirstSend<E> {
    match result {
        Ok(n) => FirstSend::Sent(n),
        Err(failure) => if failure.code == Some(codes.in_progress) {
            FirstSend::Connecting
        } else {
            FirstSend::Failed(failure.error)
        },
    }
}

/// Judges the result of the first send on a stream.
pub fn first_send<E>(result: Result<usize, Failure<E>>, codes: ErrorCodes) -> (sent: FirstSend<E>)
    ensures
        sent == spec_first_send(result, codes),
{
    match result {
        Ok(n) => FirstSend::Sent(n),
        Err(failure) => if failure.has_code(codes.in_progress) {
            FirstSend::Connecting
        } else {
            FirstSend::Failed(failure.error)
        },
    }
}

/// What a first send is reported as: whether the connection is being made instead, and the result.
pub open spec fn spec_outcome<E>(sent: FirstSend<E>, would_block: E) -> (bool, Result<usize, E>) {
    match sent {
        FirstSend::Sent(n) => (false, Ok(n)),
        FirstSend::Connecting => (true, Err(would_block)),
        FirstSend::Failed(error) => (false, Err(error)),
    }
}

/// Reports a first send. One that is connecting instead is reported with the error `would_block`, for
/// the event loop to take the stream as not writable.
pub fn outcome<E>(sent: FirstSend<E>, would_block: E) -> (reported: (bool, Result<usize, E>))
    ensures
        reported == spec_outcome(sent, would_block),
{
    match sent {
        FirstSend::Sent(n) => (false, Ok(n)),
        FirstSend::Connecting => (true, Err(would_block)),
        FirstSend::Failed(error) => (false, Err(error)),
    }
}

} // verus!
