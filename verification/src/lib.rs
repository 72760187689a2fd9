//! Connection state and control framing for an ARDOP terminal node controller
//!
//! ARDOP is a digital mode for radio links. A program talks to the radio
//! modem, the *TNC*, over a local connection; the modem talks to a remote
//! peer over the air. This crate holds what has to be decided between the
//! two: which bytes a reader gets, when a writer may send, how far the bytes
//! that were written have travelled, and where one control message ends and
//! the next begins.

pub mod connectioninfo;
pub mod error;
pub mod framing;
pub mod outside;
pub mod protocol;
pub mod tncdata;
pub mod tncio;
