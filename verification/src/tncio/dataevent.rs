//! What the TNC tells a connection

use vstd::prelude::*;

use crate::protocol::response::ConnectionStateChange;
use crate::tncdata::DataIn;

verus! {

/// Data, or an event, of a connection.
#[derive(Debug)]
pub enum DataEvent {
    /// Something about the connection has changed.
    Event(ConnectionStateChange),
    /// Data has been received.
    Data(DataIn),
}

impl DataEvent {
    /// The bytes of the connection that arrive with this event.
    pub open spec fn payload(self) -> Seq<u8> {
        match self {
            DataEvent::Data(DataIn::ARQ(data)) => crate::outside::bytes_contents(data),
            _ => Seq::empty(),
        }
    }
}

} // verus!
