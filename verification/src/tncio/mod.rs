//! What the connections to the local TNC carry

pub mod arqbehaviour;
pub mod arqlaws;
pub mod arqmodel;
pub mod arqsession;
pub mod arqstate;
pub mod dataevent;
