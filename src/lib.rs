//! The connecting side of the handshake of an SRT-style transport.
pub mod packet;
pub mod connect;
pub mod laws;
