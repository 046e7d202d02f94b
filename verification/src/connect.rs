//! Connecting to an address: resolving the host when needed, then trying the
//! resolved addresses in turn.
pub mod connector;
pub mod resolver;
pub mod service;
