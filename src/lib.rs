//! Request signing, header construction and response classification for an
//! exchange's REST API.
//!
//! The library decides everything about a call: which URL, which headers,
//! which body, and what the status code and body of the answer mean. Sending
//! the request over the network is left to the caller.

pub mod signing;
pub mod client;
pub mod error;
pub mod request;
pub mod response;
