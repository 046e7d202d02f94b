//! Verified core of a set of asynchronous networking utilities: framed
//! transports, service combinators, request ordering, timeouts, keep-alive,
//! connection attempts and server service configuration.
pub mod buf;
pub mod codec;
pub mod poll;
pub mod utils;
pub mod service;
pub mod connect;
pub mod server;
mod text;
