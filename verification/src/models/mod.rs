//! Plain data that crosses the command surface.

pub mod connection;
pub mod export;
pub mod query;
pub mod schema;
