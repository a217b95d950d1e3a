//! Ring buffers for inter-process communication.
//!
//! The write side binds and runs a server on a local socket or named pipe, then
//! registers a ring buffer under a named port. Readers connect to the server's
//! address and request that port.

pub mod consumer;
pub mod mapping_handle;
pub mod producer;
pub mod reader;
pub mod registered;
pub mod server;
