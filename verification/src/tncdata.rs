//! Payload data, as it goes to and comes from the TNC

use vstd::prelude::*;

use bytes::Bytes;

verus! {

/// Payload data to transmit to the peer.
pub type DataOut = Bytes;

/// Payload data that the TNC has received.
#[derive(Debug)]
pub enum DataIn {
    /// Data of the connection, which is reliable and in order.
    ARQ(Bytes),
    /// Data that was broadcast, outside of any connection.
    FEC(Bytes),
}

} // verus!
