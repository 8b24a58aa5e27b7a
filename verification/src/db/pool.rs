//! The connection registry: live driver handles by connection identifier.
//!
//! An identifier maps to at most one handle. A handle is shared: the
//! registry and every operation in flight hold the same allocation, and it
//! lives as long as its longest holder. The registry itself is plain data;
//! the caller puts it behind a lock where several tasks use it.

use crate::db::table::KeyedTable;
use crate::error::{not_found_text, AppError, ErrorModel};
use std::sync::Arc;
use vstd::prelude::*;

verus! {

/// Calls `Arc::clone`.
///
/// Trusted: the result points to the same allocation, so it holds the same
/// value.
#[verifier::external_body]
fn share<H>(handle: &Arc<H>) -> (shared: Arc<H>)
    ensures
        shared == *handle,
{
    Arc::clone(handle)
}

/// What looking an identifier up gives: its handle, or `ConnectionNotFound`
/// when the registry does not hold it.
pub open spec fn lookup_outcome<H>(connections: Map<Seq<char>, H>, id: Seq<char>) -> Result<
    H,
    ErrorModel,
> {
    if connections.contains_key(id) {
        Ok(connections[id])
    } else {
        Err(ErrorModel::ConnectionNotFound(not_found_text(id)))
    }
}

/// What removing an identifier gives: success, or `ConnectionNotFound` when
/// the registry does not hold it.
pub open spec fn removal_outcome<H>(connections: Map<Seq<char>, H>, id: Seq<char>) -> Result<
    (),
    ErrorModel,
> {
    if connections.contains_key(id) {
        Ok(())
    } else {
        Err(ErrorModel::ConnectionNotFound(not_found_text(id)))
    }
}

/// The registry of live connections.
pub struct PoolManager<H> {
    pools: KeyedTable<Arc<H>>,
}

impl<H> View for PoolManager<H> {
    type V = Map<Seq<char>, H>;

    closed spec fn view(&self) -> Map<Seq<char>, H> {
        self.pools@.map_values(|shared: Arc<H>| *shared)
    }
}

impl<H> PoolManager<H> {
    /// A registry without connections.
    pub fn new() -> (manager: Self)
        ensures
            manager@ == Map::<Seq<char>, H>::empty(),
    {
        let manager = PoolManager { pools: KeyedTable::new() };
        proof {
            assert(manager@ =~= Map::<Seq<char>, H>::empty());
        }
        manager
    }

    /// Registers a handle under an identifier, in place of the handle that
    /// the identifier had, if it had one.
    pub fn add(&mut self, id: String, handle: H)
        ensures
            final(self)@ == old(self)@.insert(id@, handle),
    {
        self.pools.insert(id, Arc::new(handle));
        proof {
            assert(final(self)@ =~= old(self)@.insert(id@, handle));
        }
    }

    /// The shared handle of an identifier.
    ///
    /// Fails with `ConnectionNotFound` exactly when the identifier is not
    /// registered.
    pub fn get(&self, id: &str) -> (found: Result<Arc<H>, AppError>)
        ensures
            match found {
                Ok(shared) => lookup_outcome(self@, id@) == Ok::<H, ErrorModel>(*shared),
                Err(e) => lookup_outcome(self@, id@) == Err::<H, ErrorModel>(e@),
            },
    {
        match self.pools.get(id) {
            Some(shared) => Ok(share(shared)),
            None => Err(AppError::connection_not_found(id)),
        }
    }

    /// Whether an identifier is registered.
    pub fn contains(&self, id: &str) -> (found: bool)
        ensures
            found == self@.contains_key(id@),
    {
        self.pools.contains_key(id)
    }

    /// The number of registered connections.
    pub fn len(&self) -> (n: usize)
        ensures
            n == self@.dom().len(),
            self@.dom().finite(),
    {
        proof {
            assert(self@.dom() =~= self.pools@.dom());
        }
        self.pools.len()
    }

    /// A registry holds finitely many connections.
    pub proof fn domain_is_finite(&self)
        ensures
            self@.dom().finite(),
    {
        self.pools.domain_is_finite();
        assert(self@.dom() =~= self.pools@.dom());
    }

    /// Unregisters an identifier. Lookups of it fail from then on.
    ///
    /// Fails with `ConnectionNotFound` exactly when the identifier was not
    /// registered; the registry is then unchanged.
    pub fn remove(&mut self, id: &str) -> (done: Result<(), AppError>)
        ensures
            final(self)@ == old(self)@.remove(id@),
            match done {
                Ok(_) => removal_outcome(old(self)@, id@) == Ok::<(), ErrorModel>(()),
                Err(e) => removal_outcome(old(self)@, id@) == Err::<(), ErrorModel>(e@),
            },
    {
        let taken = self.pools.remove(id);
        proof {
            assert(final(self)@ =~= old(self)@.remove(id@));
        }
        match taken {
            Some(_) => Ok(()),
            None => Err(AppError::connection_not_found(id)),
        }
    }
}

/// An identifier that the registry does not hold is not found: looking it
/// up and removing it both fail with `ConnectionNotFound`, and removing it
/// changes nothing. A registry to which nothing was added holds no
/// identifier.
pub proof fn absent_identifier_is_not_found<H>(connections: Map<Seq<char>, H>, id: Seq<char>)
    requires
        !connections.contains_key(id),
    ensures
        lookup_outcome(connections, id) == Err::<H, ErrorModel>(
            ErrorModel::ConnectionNotFound(not_found_text(id)),
        ),
        removal_outcome(connections, id) == Err::<(), ErrorModel>(
            ErrorModel::ConnectionNotFound(not_found_text(id)),
        ),
        connections.remove(id) == connections,
        !Map::<Seq<char>, H>::empty().contains_key(id),
{
    assert(connections.remove(id) =~= connections);
}

/// Once an identifier is removed, looking it up and removing it again both
/// fail with `ConnectionNotFound`, whatever the registry held before.
pub proof fn removed_identifier_is_not_found<H>(connections: Map<Seq<char>, H>, id: Seq<char>)
    ensures
        lookup_outcome(connections.remove(id), id) == Err::<H, ErrorModel>(
            ErrorModel::ConnectionNotFound(not_found_text(id)),
        ),
        removal_outcome(connections.remove(id), id) == Err::<(), ErrorModel>(
            ErrorModel::ConnectionNotFound(not_found_text(id)),
        ),
{
}

/// Adding under an identifier that the registry does not hold makes the
/// registry one entry larger; adding under one that it holds leaves the
/// number of entries as it is. Removing an identifier that it holds makes
/// it one entry smaller.
pub proof fn entry_count_follows<H>(connections: Map<Seq<char>, H>, id: Seq<char>, handle: H)
    requires
        connections.dom().finite(),
    ensures
        connections.insert(id, handle).dom().finite(),
        connections.remove(id).dom().finite(),
        connections.insert(id, handle).dom().len() == (if connections.contains_key(id) {
            connections.dom().len()
        } else {
            connections.dom().len() + 1
        }),
        connections.remove(id).dom().len() == (if connections.contains_key(id) {
            connections.dom().len() - 1
        } else {
            connections.dom().len() as int
        }),
{
    assert(connections.insert(id, handle).dom() =~= connections.dom().insert(id));
    assert(connections.remove(id).dom() =~= connections.dom().remove(id));
}

/// An identifier that was added is found with the handle added last, and
/// every other identifier is as it was.
pub proof fn added_identifier_is_found<H>(
    connections: Map<Seq<char>, H>,
    id: Seq<char>,
    first: H,
    second: H,
)
    ensures
        lookup_outcome(connections.insert(id, second), id) == Ok::<H, ErrorModel>(second),
        connections.insert(id, first).insert(id, second) == connections.insert(id, second),
        forall|other: Seq<char>|
            other != id ==> #[trigger] lookup_outcome(connections.insert(id, second), other)
                == lookup_outcome(connections, other),
{
    assert(connections.insert(id, first).insert(id, second) =~= connections.insert(id, second));
}

} // verus!
