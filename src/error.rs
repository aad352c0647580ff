use vstd::prelude::*;

verus! {

/// The errors that an operation of the runtime reports to its awaiter.
#[derive(Debug)]
pub enum Error {
    /// An `errno` reported by the ring or by a system call.
    Io(i32),
    /// The operation was cancelled.
    Cancel,
    /// The operation timed out.
    Timeout,
    /// A zero-byte transfer on a non-empty request.
    Eof,
    /// A broken invariant, with an explanation.
    Internal(&'static str),
    /// A foreign error, passed through as its message.
    Boxed(String),
}

/// The result type of the runtime's operations.
pub type Result<T> = core::result::Result<T, Error>;

} // verus!
