//! Outcomes of the input and output operations that a caller performs for the state machines.

use vstd::prelude::*;

verus! {

/// Whether an asynchronous operation has an outcome yet.
#[derive(Debug, PartialEq, Eq)]
pub enum Poll<T> {
    Ready(T),
    Pending,
}

/// The classes of errors that the state machines tell apart.
#[derive(Clone, Copy, Debug, PartialEq, Eq, Structural)]
pub enum ErrorKind {
    /// The operation would have to wait.
    WouldBlock,
    /// Anything else.
    Other,
}

/// An error, with what has to be known of it to decide what comes next.
#[derive(Debug, PartialEq, Eq)]
pub struct Failure<E> {
    /// Error code of the operating system, where the error came from there.
    pub code: Option<i32>,
    /// Class of the error.
    pub kind: ErrorKind,
    /// The error itself, handed back untouched.
    pub error: E,
}

impl<E> Failure<E> {
    /// Whether the operating system failed with this code.
    pub fn has_code(&self, code: i32) -> (same: bool)
        ensures
            same == (self.code == Some(code)),
    {
        match self.code {
            Some(c) => c == code,
            None => false,
        }
    }
}

/// Error codes of a Unix system that change the course of a connection. Their numbers differ
/// between operating systems, and on Linux between processor architectures.
#[derive(Clone, Copy, Debug, PartialEq, Eq, Structural)]
pub struct ErrorCodes {
    /// `EINPROGRESS`
    pub in_progress: i32,
    /// `ENOPROTOOPT`
    pub no_proto_opt: i32,
}

/// Whether some system has these numbers for `EINPROGRESS` and `ENOPROTOOPT`, out of the systems and
/// architectures that `libc` 0.2.191 knows.
pub open spec fn is_pair(in_progress: i32, no_proto_opt: i32) -> bool {
    // Linux (with Android), Fuchsia, Redox and others that take after Linux
    ||| in_progress == 115 && no_proto_opt == 92
    // Apple systems, the BSDs, Linux on SPARC
    ||| in_progress == 36 && no_proto_opt == 42
    // Solaris and illumos, Linux on MIPS
    ||| in_progress == 150 && no_proto_opt == 99
    // Windows
    ||| in_progress == 112 && no_proto_opt == 123
    // Cygwin, newlib
    ||| in_progress == 119 && no_proto_opt == 109
    // AIX
    ||| in_progress == 55 && no_proto_opt == 61
    // WASI, Emscripten
    ||| in_progress == 26 && no_proto_opt == 50
    // VxWorks
    ||| in_progress == 68 && no_proto_opt == 42
    // QNX
    ||| in_progress == 236 && no_proto_opt == 242
    // Hurd
    ||| in_progress == 1073741860 && no_proto_opt == 1073741866
    // Haiku
    ||| in_progress == -2147454940 && no_proto_opt == -2147454942
}

/// Reads the constants `libc::EINPROGRESS` and `libc::ENOPROTOOPT` of the system that the crate is
/// built for. They are a pair of numbers that `libc` defines under these names for one of its targets;
/// which target that is, is left open.
#[verifier::external_body]
fn libc_codes() -> (codes: (i32, i32))
    ensures
        is_pair(codes.0, codes.1),
{
    (libc::EINPROGRESS, libc::ENOPROTOOPT)
}

impl ErrorCodes {
    /// The codes of the system that the crate is built for. No system has one number for both.
    pub fn host() -> (codes: ErrorCodes)
        ensures
            is_pair(codes.in_progress, codes.no_proto_opt),
            codes.in_progress != codes.no_proto_opt,
    {
        let (in_progress, no_proto_opt) = libc_codes();
        ErrorCodes { in_progress, no_proto_opt }
    }
}

} // verus!
