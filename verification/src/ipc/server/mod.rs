//! The server that routes clients to rings by port name.

pub mod registry;
pub mod route;
pub mod run;
