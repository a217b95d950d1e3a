//! Ring buffers for in-process and interprocess communication.
//!
//! - Copy-free reads and writes through contiguous byte views, even across wraparound.
//! - Attach up to 64 parallel readers to a single ring buffer.
//! - Asynchronous waiting with slowest-consumer backpressure.
//!
//! Every rule of the ring is a verified function of this library. The operating
//! system's side (mappings, sockets, sleeping, wakeups) is ordinary code around
//! it, which hands the library what it observed and carries out what it decided.

pub mod cursor;
pub mod error;
pub mod handshake;
pub mod ipc;
pub mod local;
pub mod mapping;
pub mod platform;
pub mod power;
pub mod ring;
pub mod view;
