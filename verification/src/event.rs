//! What a connection's I/O reports back to a session, and why a session ends.

use vstd::prelude::*;

verus! {

/// Size of the receive buffer every connection reads into.
pub const BUFFER_SIZE: usize = 1024;

/// The outcome of the one read, write or flush that a session asked for.
#[derive(Clone, Copy, Debug, PartialEq, Eq, Structural)]
pub enum IoEvent {
    /// A read completed with this many bytes (zero means end of stream).
    Read(usize),
    /// A read failed.
    ReadFailed,
    /// A write completed, accepting this many bytes (zero means the peer is gone).
    Wrote(usize),
    /// A write failed.
    WriteFailed,
    /// A flush completed.
    Flushed,
    /// A flush failed.
    FlushFailed,
}

/// Why a session ended.
#[derive(Clone, Copy, Debug, PartialEq, Eq, Structural)]
pub enum CloseReason {
    /// The client completed all of its rounds.
    Finished,
    /// A read returned no bytes: the peer closed its side.
    PeerClosed,
    /// A write accepted no bytes.
    WriteZero,
    /// A read failed.
    ReadError,
    /// A write failed.
    WriteError,
    /// A flush failed.
    FlushError,
}

impl CloseReason {
    /// The session ended because an I/O operation failed (as opposed to an
    /// orderly end). Such sessions print the error and no closing line.
    pub open spec fn is_failure(self) -> bool {
        ||| self == CloseReason::ReadError
        ||| self == CloseReason::WriteError
        ||| self == CloseReason::FlushError
    }
}

} // verus!
