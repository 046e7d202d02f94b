//! Service utilities: framed dispatching, keep-alive, in-order responses,
//! timeouts and the `Either` service factory.
pub mod framed;
pub mod timeout;
pub mod keepalive;
pub mod order;
pub mod either;
pub mod stream;
pub mod counter;
