//! Encoding of server-sent events for the Datastar hypermedia protocol, and
//! reading of the signals that the client sends with its requests.

pub mod event;
pub mod fragments;
pub mod generator;
pub mod laws;
pub mod lines;
pub mod request;
pub mod response;
pub mod scripts;
pub mod signals;
