//! Metadata of a connection

use vstd::prelude::*;

verus! {

/// Which side opened a connection. Either way the local callsign is held.
#[derive(Debug)]
pub enum Direction {
    /// The remote peer called the local station.
    Incoming(String),
    /// The local station called the remote peer.
    Outgoing(String),
}

/// What is known of a connection from the moment when it opens.
#[derive(Debug)]
pub struct ConnectionInfo {
    /// Callsign of the remote peer.
    pub peer_call: String,
    /// Maidenhead grid square of the remote peer, where it is known.
    pub peer_grid: Option<String>,
    /// Bandwidth of the connection, in hertz.
    pub bandwidth: u16,
    /// Which side opened the connection.
    pub direction: Direction,
}

impl ConnectionInfo {
    /// New metadata of a connection
    pub fn new(
        peer_call: &str,
        peer_grid: Option<String>,
        bandwidth: u16,
        direction: Direction,
    ) -> (info: ConnectionInfo)
        ensures
            info.peer_call@ == peer_call@,
            info.peer_grid == peer_grid,
            info.bandwidth == bandwidth,
            info.direction == direction,
    {
        ConnectionInfo { peer_call: peer_call.to_owned(), peer_grid, bandwidth, direction }
    }
}

} // verus!
