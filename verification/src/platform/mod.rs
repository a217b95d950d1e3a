//! Rules of named rings and of the platforms that they live on.

pub mod connection;
pub mod laws;
pub mod mapping;
pub mod notification;
pub mod sys;
