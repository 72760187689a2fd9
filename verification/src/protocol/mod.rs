//! The control protocol of the TNC

pub mod response;
