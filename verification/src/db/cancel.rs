//! The cancellation registry: one pending cancel signal per query token.
//!
//! Registering a token makes a fresh one-shot channel, keeps its sending
//! half under the token and hands the receiving half to the caller.
//! Cancelling a token fires the sending half and drops the entry; removing
//! a token drops the entry without firing. Registering a token that is
//! pending replaces its entry: the earlier sending half is dropped and is
//! never fired.
//!
//! To say which registration a cancel fires, every registration gets a
//! serial number: the count of registrations made before it. The numbers
//! exist in the contracts only.

use crate::db::table::KeyedTable;
use vstd::prelude::*;

verus! {

/// The sending half of a `tokio` one-shot channel; opaque to the verifier.
#[verifier::external_type_specification]
#[verifier::external_body]
#[verifier::reject_recursive_types(T)]
pub struct ExSender<T>(tokio::sync::oneshot::Sender<T>);

/// The receiving half of a `tokio` one-shot channel; opaque to the verifier.
#[verifier::external_type_specification]
#[verifier::external_body]
#[verifier::reject_recursive_types(T)]
pub struct ExReceiver<T>(tokio::sync::oneshot::Receiver<T>);

/// What a receiving half yields when its sending half is dropped unfired;
/// opaque to the verifier. It is declared because the receiving half is a
/// future with this as its failure, and the verifier reads that impl.
#[verifier::external_type_specification]
#[verifier::external_body]
pub struct ExRecvError(tokio::sync::oneshot::error::RecvError);

/// Calls `tokio::sync::oneshot::channel`.
///
/// Trusted: nothing is claimed of the two halves.
#[verifier::external_body]
fn open_channel() -> (halves: (
    tokio::sync::oneshot::Sender<()>,
    tokio::sync::oneshot::Receiver<()>,
)) {
    tokio::sync::oneshot::channel()
}

/// Calls `tokio::sync::oneshot::Sender::send` with the unit value.
///
/// Trusted: nothing is claimed of the result, which says whether the
/// receiving half was still there.
#[verifier::external_body]
fn fire(sender: tokio::sync::oneshot::Sender<()>) -> (delivered: bool) {
    sender.send(()).is_ok()
}

/// The state of the registry as the contracts see it.
#[verifier::ext_equal]
pub struct RegistryModel {
    /// The serial number of the pending registration of each token.
    pub pending: Map<Seq<char>, nat>,
    /// How many registrations were made so far.
    pub issued: nat,
    /// The serial numbers of the registrations that were fired.
    pub fired: Set<nat>,
}

impl RegistryModel {
    /// The state before any registration.
    pub open spec fn empty() -> RegistryModel {
        RegistryModel { pending: Map::empty(), issued: 0, fired: Set::empty() }
    }

    /// A state that the operations can reach: every pending registration
    /// was issued and not fired, no two tokens share a registration, and
    /// every fired registration was issued.
    pub open spec fn wf(self) -> bool {
        &&& forall|token: Seq<char>| #[trigger]
            self.pending.contains_key(token) ==> self.pending[token] < self.issued
                && !self.fired.contains(self.pending[token])
        &&& forall|a: Seq<char>, b: Seq<char>|
            #![trigger self.pending[a], self.pending[b]]
            self.pending.contains_key(a) && self.pending.contains_key(b) && a != b
                ==> self.pending[a] != self.pending[b]
        &&& forall|serial: nat| #[trigger] self.fired.contains(serial) ==> serial < self.issued
    }

    /// Whether a registration is the pending one of some token.
    pub open spec fn is_pending(self, serial: nat) -> bool {
        exists|token: Seq<char>| #[trigger]
            self.pending.contains_key(token) && self.pending[token] == serial
    }

    /// Whether a registration was made and then dropped without being fired.
    pub open spec fn discarded(self, serial: nat) -> bool {
        serial < self.issued && !self.is_pending(serial) && !self.fired.contains(serial)
    }

    /// The state after registering a token: the token's pending
    /// registration is the new one.
    pub open spec fn register(self, token: Seq<char>) -> RegistryModel {
        RegistryModel {
            pending: self.pending.insert(token, self.issued),
            issued: self.issued + 1,
            fired: self.fired,
        }
    }

    /// Whether cancelling a token finds a pending registration.
    pub open spec fn cancels(self, token: Seq<char>) -> bool {
        self.pending.contains_key(token)
    }

    /// The state after cancelling a token: its pending registration, if it
    /// has one, is fired and gone.
    pub open spec fn cancel(self, token: Seq<char>) -> RegistryModel {
        if self.pending.contains_key(token) {
            RegistryModel {
                pending: self.pending.remove(token),
                issued: self.issued,
                fired: self.fired.insert(self.pending[token]),
            }
        } else {
            self
        }
    }

    /// The state after removing a token: its pending registration, if it
    /// has one, is gone and was not fired.
    pub open spec fn remove(self, token: Seq<char>) -> RegistryModel {
        RegistryModel { pending: self.pending.remove(token), issued: self.issued, fired: self.fired }
    }
}

/// A pending registration: the sending half of its channel, and its serial
/// number.
pub struct PendingCancel {
    sender: tokio::sync::oneshot::Sender<()>,
    serial: Ghost<nat>,
}

/// The registry of cancellable queries in flight.
///
/// Its view is the bookkeeping of the contracts: which registration is
/// pending under each token, how many were made and which were fired. The
/// sending halves themselves are not part of the view.
pub struct CancellationRegistry {
    senders: KeyedTable<PendingCancel>,
    issued: Ghost<nat>,
    fired: Ghost<Set<nat>>,
}

impl View for CancellationRegistry {
    type V = RegistryModel;

    closed spec fn view(&self) -> RegistryModel {
        RegistryModel {
            pending: self.senders@.map_values(|entry: PendingCancel| entry.serial@),
            issued: self.issued@,
            fired: self.fired@,
        }
    }
}

impl CancellationRegistry {
    #[verifier::type_invariant]
    closed spec fn reachable(&self) -> bool {
        self@.wf()
    }

    /// A registry without pending registrations.
    pub fn new() -> (registry: Self)
        ensures
            registry@ == RegistryModel::empty(),
            registry@.wf(),
    {
        let registry = CancellationRegistry {
            senders: KeyedTable::new(),
            issued: Ghost(0),
            fired: Ghost(Set::empty()),
        };
        proof {
            assert(registry@.pending =~= Map::<Seq<char>, nat>::empty());
        }
        registry
    }

    /// Moves the state out and leaves an empty registry.
    fn take(&mut self) -> (taken: Self)
        ensures
            taken == *old(self),
    {
        let mut taken = CancellationRegistry::new();
        std::mem::swap(self, &mut taken);
        taken
    }

    /// Tells the verifier that the registry's state is one that the
    /// operations can reach. It does nothing when it runs.
    pub fn state_is_reachable(&self)
        ensures
            self@.wf(),
    {
        proof {
            use_type_invariant(self);
        }
    }

    /// Whether a token has a pending registration.
    pub fn is_registered(&self, query_id: &str) -> (found: bool)
        ensures
            found == self@.pending.contains_key(query_id@),
            self@.wf(),
    {
        proof {
            use_type_invariant(self);
        }
        self.senders.contains_key(query_id)
    }

    /// Registers a token and gives the receiving half of a fresh channel,
    /// which completes when the token is cancelled.
    ///
    /// A pending registration of the same token is replaced and never fired.
    pub fn register(&mut self, query_id: String) -> (signal: tokio::sync::oneshot::Receiver<()>)
        ensures
            final(self)@ == old(self)@.register(query_id@),
            old(self)@.wf(),
            final(self)@.wf(),
    {
        proof {
            use_type_invariant(&*self);
        }
        let (sender, receiver) = open_channel();
        let CancellationRegistry { senders, issued, fired } = self.take();
        let mut senders = senders;
        let ghost before = senders@;
        let ghost token = query_id@;
        senders.insert(query_id, PendingCancel { sender, serial: Ghost(issued@) });
        let ghost pending = senders@.map_values(|entry: PendingCancel| entry.serial@);
        proof {
            assert(pending =~= before.map_values(|entry: PendingCancel| entry.serial@).insert(
                token,
                issued@,
            ));
        }
        proof {
            let next = RegistryModel { pending, issued: issued@ + 1, fired: fired@ };
            assert(next =~= old(self)@.register(token));
            register_keeps_state_reachable(old(self)@, token);
        }
        *self = CancellationRegistry { senders, issued: Ghost(issued@ + 1), fired };
        receiver
    }

    /// Fires the pending registration of a token and drops its entry.
    ///
    /// Returns whether the token had a pending registration; without one
    /// the registry is unchanged.
    ///
    /// The contract speaks of the registry's own record: which registration
    /// is marked as fired. That the receiving half handed out for that
    /// registration then completes is the channel's doing; it is not proved
    /// here, since nothing in the contracts ties a receiving half to the
    /// sending half stored under its token.
    pub fn cancel(&mut self, query_id: &str) -> (found: bool)
        ensures
            found == old(self)@.cancels(query_id@),
            final(self)@ == old(self)@.cancel(query_id@),
            old(self)@.wf(),
            final(self)@.wf(),
    {
        proof {
            use_type_invariant(&*self);
        }
        let CancellationRegistry { senders, issued, fired } = self.take();
        let mut senders = senders;
        let ghost before = senders@;
        let taken = senders.remove(query_id);
        let ghost pending = senders@.map_values(|entry: PendingCancel| entry.serial@);
        proof {
            assert(pending =~= before.map_values(|entry: PendingCancel| entry.serial@).remove(
                query_id@,
            ));
        }
        match taken {
            Some(entry) => {
                let PendingCancel { sender, serial } = entry;
                proof {
                    let next = RegistryModel {
                        pending,
                        issued: issued@,
                        fired: fired@.insert(serial@),
                    };
                    assert(next =~= old(self)@.cancel(query_id@));
                    cancel_keeps_state_reachable(old(self)@, query_id@);
                }
                *self = CancellationRegistry {
                    senders,
                    issued,
                    fired: Ghost(fired@.insert(serial@)),
                };
                let _ = fire(sender);
                true
            },
            None => {
                proof {
                    let next = RegistryModel { pending, issued: issued@, fired: fired@ };
                    assert(next =~= old(self)@);
                }
                *self = CancellationRegistry { senders, issued, fired };
                false
            },
        }
    }

    /// Drops the entry of a token without firing it. Removing a token that
    /// has no entry changes nothing.
    pub fn remove(&mut self, query_id: &str)
        ensures
            final(self)@ == old(self)@.remove(query_id@),
            old(self)@.wf(),
            final(self)@.wf(),
    {
        proof {
            use_type_invariant(&*self);
        }
        let CancellationRegistry { senders, issued, fired } = self.take();
        let mut senders = senders;
        let ghost before = senders@;
        let _ = senders.remove(query_id);
        let ghost pending = senders@.map_values(|entry: PendingCancel| entry.serial@);
        proof {
            assert(pending =~= before.map_values(|entry: PendingCancel| entry.serial@).remove(
                query_id@,
            ));
        }
        proof {
            let next = RegistryModel { pending, issued: issued@, fired: fired@ };
            assert(next =~= old(self)@.remove(query_id@));
            remove_keeps_state_reachable(old(self)@, query_id@);
        }
        *self = CancellationRegistry { senders, issued, fired };
    }
}

/// Registering a token leads from a reachable state to a reachable state.
pub proof fn register_keeps_state_reachable(state: RegistryModel, token: Seq<char>)
    requires
        state.wf(),
    ensures
        state.register(token).wf(),
{
    let next = state.register(token);
    assert forall|t: Seq<char>| #[trigger] next.pending.contains_key(t) implies next.pending[t]
        < next.issued && !next.fired.contains(next.pending[t]) by {
        if t != token {
            assert(state.pending.contains_key(t));
        }
    }
}

/// Cancelling a token leads from a reachable state to a reachable state.
pub proof fn cancel_keeps_state_reachable(state: RegistryModel, token: Seq<char>)
    requires
        state.wf(),
    ensures
        state.cancel(token).wf(),
{
    let next = state.cancel(token);
    assert forall|t: Seq<char>| #[trigger] next.pending.contains_key(t) implies next.pending[t]
        < next.issued && !next.fired.contains(next.pending[t]) by {
        assert(state.pending.contains_key(t));
    }
}

/// Removing a token leads from a reachable state to a reachable state.
pub proof fn remove_keeps_state_reachable(state: RegistryModel, token: Seq<char>)
    requires
        state.wf(),
    ensures
        state.remove(token).wf(),
{
    let next = state.remove(token);
    assert forall|t: Seq<char>| #[trigger] next.pending.contains_key(t) implies next.pending[t]
        < next.issued && !next.fired.contains(next.pending[t]) by {
        assert(state.pending.contains_key(t));
    }
}

/// Cancelling a token that has no pending registration finds nothing and
/// changes nothing. No token has one before the first registration.
pub proof fn absent_token_is_not_cancelled(state: RegistryModel, token: Seq<char>)
    requires
        !state.pending.contains_key(token),
    ensures
        !state.cancels(token),
        state.cancel(token) == state,
        !RegistryModel::empty().cancels(token),
{
}

/// A token that was cancelled or removed has no pending registration:
/// cancelling it again finds nothing.
pub proof fn dropped_token_is_not_cancelled(state: RegistryModel, token: Seq<char>)
    ensures
        !state.cancel(token).cancels(token),
        !state.remove(token).cancels(token),
{
}

/// Removing a token twice is the same as removing it once.
pub proof fn double_removal_is_a_no_op(state: RegistryModel, token: Seq<char>)
    ensures
        state.remove(token).remove(token) == state.remove(token),
        state.cancel(token).remove(token) == state.cancel(token),
        state.cancel(token).cancel(token) == state.cancel(token),
{
    assert(state.remove(token).remove(token).pending =~= state.remove(token).pending);
    assert(state.cancel(token).remove(token).pending =~= state.cancel(token).pending);
}

/// A freshly registered token is cancelled exactly once: the first cancel
/// finds it, the second finds nothing.
pub proof fn fresh_token_is_cancelled_once(state: RegistryModel, token: Seq<char>)
    ensures
        state.register(token).cancels(token),
        !state.register(token).cancel(token).cancels(token),
{
}

/// Registering a token twice leaves the second registration pending and
/// the first one discarded, unfired. A cancel of the token afterwards fires
/// the second registration and not the first.
pub proof fn second_registration_replaces_first(state: RegistryModel, token: Seq<char>)
    requires
        state.wf(),
    ensures
        ({
            let first = state.issued;
            let second = state.issued + 1;
            let twice = state.register(token).register(token);
            &&& twice.pending[token] == second
            &&& twice.discarded(first)
            &&& twice.cancels(token)
            &&& twice.cancel(token).fired == twice.fired.insert(second)
            &&& !twice.cancel(token).fired.contains(first)
        }),
{
    let once = state.register(token);
    let twice = once.register(token);
    register_keeps_state_reachable(state, token);
    register_keeps_state_reachable(once, token);
    assert(!twice.is_pending(state.issued)) by {
        if twice.is_pending(state.issued) {
            let t = choose|t: Seq<char>| #[trigger]
                twice.pending.contains_key(t) && twice.pending[t] == state.issued;
            if t != token {
                assert(state.pending.contains_key(t));
            }
        }
    }
}

/// A discarded registration stays discarded: no registration, cancel or
/// removal of any token fires it afterwards.
pub proof fn discarded_registration_is_never_fired(
    state: RegistryModel,
    serial: nat,
    token: Seq<char>,
)
    requires
        state.wf(),
        state.discarded(serial),
    ensures
        state.register(token).discarded(serial),
        state.cancel(token).discarded(serial),
        state.remove(token).discarded(serial),
{
    let registered = state.register(token);
    assert(!registered.is_pending(serial)) by {
        if registered.is_pending(serial) {
            let t = choose|t: Seq<char>| #[trigger]
                registered.pending.contains_key(t) && registered.pending[t] == serial;
            if t != token {
                assert(state.pending.contains_key(t));
            }
        }
    }
    let cancelled = state.cancel(token);
    assert(!cancelled.is_pending(serial)) by {
        if cancelled.is_pending(serial) {
            let t = choose|t: Seq<char>| #[trigger]
                cancelled.pending.contains_key(t) && cancelled.pending[t] == serial;
            assert(state.pending.contains_key(t));
        }
    }
    if state.pending.contains_key(token) {
        assert(state.pending[token] != serial);
    }
    let removed = state.remove(token);
    assert(!removed.is_pending(serial)) by {
        if removed.is_pending(serial) {
            let t = choose|t: Seq<char>| #[trigger]
                removed.pending.contains_key(t) && removed.pending[t] == serial;
            assert(state.pending.contains_key(t));
        }
    }
}

} // verus!
