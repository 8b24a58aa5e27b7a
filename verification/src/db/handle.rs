//! A driver with the narrowing to its SQL surface.
//!
//! Every backend offers the common operations. A backend that supports
//! schema-qualified relational operations offers the SQL surface as well.
//! Asking a handle for a surface it lacks is an explicit failure.

use crate::error::{AppError, ErrorModel};
use crate::models::connection::DatabaseCategory;
use vstd::prelude::*;

verus! {

/// A live driver: its common surface and, where the backend has one, its
/// SQL surface.
pub struct DriverHandle<B, S> {
    base: B,
    sql: Option<S>,
}

impl<B, S> DriverHandle<B, S> {
    /// The common surface, as the contracts see it.
    pub closed spec fn base_surface(&self) -> B {
        self.base
    }

    /// The SQL surface, as the contracts see it.
    pub closed spec fn sql_surface(&self) -> Option<S> {
        self.sql
    }

    /// The handle of a backend that offers the SQL surface.
    pub fn relational(base: B, sql: S) -> (handle: Self)
        ensures
            handle.base_surface() == base,
            handle.sql_surface() == Some(sql),
    {
        DriverHandle { base, sql: Some(sql) }
    }

    /// The handle of a backend that offers the common surface only.
    pub fn generic(base: B) -> (handle: Self)
        ensures
            handle.base_surface() == base,
            handle.sql_surface() == None::<S>,
    {
        DriverHandle { base, sql: None }
    }

    /// The kind of surface that the backend offers.
    pub fn category(&self) -> (kind: DatabaseCategory)
        ensures
            kind == (match self.sql_surface() {
                Some(_) => DatabaseCategory::Relational,
                None => DatabaseCategory::Generic,
            }),
    {
        match self.sql {
            Some(_) => DatabaseCategory::Relational,
            None => DatabaseCategory::Generic,
        }
    }

    /// The common surface.
    pub fn base(&self) -> (surface: &B)
        ensures
            *surface == self.base_surface(),
    {
        &self.base
    }

    /// Narrows the handle to its SQL surface.
    ///
    /// Fails with `UnsupportedCapability` exactly when the backend has no
    /// SQL surface.
    pub fn as_sql(&self) -> (narrowed: Result<&S, AppError>)
        ensures
            match narrowed {
                Ok(surface) => self.sql_surface() == Some(*surface),
                Err(e) => self.sql_surface() is None && e@ == ErrorModel::UnsupportedCapability,
            },
    {
        match &self.sql {
            Some(surface) => Ok(surface),
            None => Err(AppError::UnsupportedCapability),
        }
    }
}

} // verus!
