//! Registries, wire values, the value normalizer and the statements of the
//! drivers.

pub mod cancel;
pub mod handle;
pub mod pool;
pub mod sql;
pub mod table;
pub mod temporal;
pub mod types;
pub mod wire;
