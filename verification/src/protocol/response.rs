//! What the TNC reports

use vstd::prelude::*;

verus! {

/// A change that the TNC reports of a connection.
#[derive(Debug, Clone, Copy)]
pub enum ConnectionStateChange {
    /// The connection is closed.
    Closed,
    /// The TNC now holds this many bytes that the peer has not acknowledged.
    SendBuffer(u64),
    /// A change that has no bearing on an open connection.
    Other,
}

} // verus!
