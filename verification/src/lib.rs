//! Execution core of a multi-backend relational database client.
//!
//! The crate holds the connection registry, the cancellation registry, the
//! decisions of the query executor and the layer that turns each engine's
//! column values into one canonical cell representation.

pub mod commands;
pub mod db;
pub mod error;
pub mod models;
pub mod text;
