//! Framing of the connections to the TNC

pub mod control;
