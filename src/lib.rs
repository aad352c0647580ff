//! A single-threaded completion-driven I/O runtime: priority ready queues,
//! submission/completion correlation, a per-operation state machine with
//! cancellation and timeout, and a verbs receive/send engine.

/// Little-endian byte encoding of integers.
pub mod codec;
mod error;
/// Open options, and the progress of whole-buffer transfers and whole-file reads.
pub mod fs;
/// Submission entries and the ring operations.
pub mod io_uring_util;
/// The reactor core: priorities, ready queues, the task table and the
/// per-operation state machine.
pub mod runtime;
/// Listening and connected sockets.
pub mod tcp;
/// Yielding and spawning from within a computation.
pub mod util;
/// Verbs connections, sends, receives and buffer acquisition.
pub mod verbs;
/// The verbs engine: buffers, queue pairs, receive slots and the handshake
/// address.
pub mod verbs_util;

pub use error::{Error, Result};
