//! Errors of a connection

use vstd::prelude::*;

verus! {

/// What went wrong, in the terms that a byte stream reports to its user.
#[derive(Debug, Clone, Copy, PartialEq, Eq, Structural)]
pub enum ErrorKind {
    /// The connection to the local TNC is gone.
    ConnectionReset,
    /// The connection to the remote peer is closed.
    BrokenPipe,
}

/// An error of a connection.
#[derive(Debug, Clone, Copy)]
pub struct TncError {
    /// What went wrong.
    pub kind: ErrorKind,
    /// A sentence for the user.
    pub message: &'static str,
}

impl TncError {
    /// The error of a lost connection to the local TNC.
    pub open spec fn connection_reset() -> TncError {
        TncError { kind: ErrorKind::ConnectionReset, message: "Lost connection to ARDOP TNC" }
    }

    /// The error of a write to a closed connection.
    pub open spec fn broken_pipe() -> TncError {
        TncError {
            kind: ErrorKind::BrokenPipe,
            message: "Broken pipe: cannot write to a closed connection",
        }
    }
}

/// The error of a lost connection to the local TNC.
pub fn connection_reset_err() -> (err: TncError)
    ensures
        err == TncError::connection_reset(),
        err.kind == ErrorKind::ConnectionReset,
        err.message@ == "Lost connection to ARDOP TNC"@,
{
    TncError { kind: ErrorKind::ConnectionReset, message: "Lost connection to ARDOP TNC" }
}

/// The error of a write to a closed connection.
pub fn broken_pipe_err() -> (err: TncError)
    ensures
        err == TncError::broken_pipe(),
        err.kind == ErrorKind::BrokenPipe,
        err.message@ == "Broken pipe: cannot write to a closed connection"@,
{
    TncError {
        kind: ErrorKind::BrokenPipe,
        message: "Broken pipe: cannot write to a closed connection",
    }
}

} // verus!
