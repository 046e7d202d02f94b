//! Framing of a byte stream into frames.
pub mod framed;
