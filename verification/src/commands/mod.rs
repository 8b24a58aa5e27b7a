//! The decisions of the command surface.
//!
//! A command looks its connection up, does its work on the driver and
//! reports what came of it. The driver's work is asynchronous input and
//! output and is done by the caller; what is decided before it and after it
//! is here.

pub mod connection;
pub mod query;
pub mod schema;
