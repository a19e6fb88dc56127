//! A minimal HTTP/1.1 responder: one request pattern, two static pages.
//!
//! The library holds everything a connection handler decides: how many
//! bytes of a request are looked at, which page a request selects, and the
//! exact bytes of the answer. Sockets and files belong to the caller.

pub mod handler;
pub mod request;
pub mod response;
