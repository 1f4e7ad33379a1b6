//! Calling the methods of an interface implemented on the other side of a
//! library boundary, with arguments and results passed as bytes.
pub mod definition;
pub mod compat;
pub mod buffer;
pub mod connection;
pub mod callee;
pub mod serialize_helpers;
pub mod wire;
pub mod server;
pub mod remote;
