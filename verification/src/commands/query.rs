//! The query executor: what it decides before and after the race between
//! the execution, the timer and the cancel signal.
//!
//! The caller runs the race. [`begin_query`] looks the driver up, settles
//! the timeout and registers the token; [`finish_query`] takes what ended
//! the race, drops the token's registration where it is still there, and
//! gives the result.

use crate::db::cancel::{
    second_registration_replaces_first, CancellationRegistry, RegistryModel,
};
use crate::db::pool::{lookup_outcome, PoolManager};
use crate::error::{AppError, ErrorModel};
use crate::db::types::{column_cell, response_of};
use crate::db::wire::WireRow;
use crate::models::connection::DatabaseType;
use crate::models::query::{CellModel, QueryResponse};
use std::sync::Arc;
use vstd::prelude::*;

verus! {

/// The timeout of a query that names none, in seconds.
pub const DEFAULT_QUERY_TIMEOUT_SECS: u64 = 30;

/// What ended the race.
pub enum Completion<T> {
    /// The execution finished first, with its result or an engine failure.
    Finished(Result<T, AppError>),
    /// The timer fired first.
    TimedOut,
    /// The cancel signal fired first.
    Cancelled,
}

/// One thing that happens while the race runs.
pub enum RaceEvent<T> {
    /// The execution finished, with its result or an engine failure.
    Finished(Result<T, AppError>),
    /// The timer fired.
    TimerFired,
    /// The cancel signal fired: the token was cancelled.
    SignalFired,
    /// The cancel signal closed without firing: the token's registration
    /// was replaced or removed.
    SignalClosed,
}

/// What an event makes of the race: how it ended, or nothing where the
/// race goes on.
pub open spec fn race_outcome<T>(event: RaceEvent<T>) -> Option<Completion<T>> {
    match event {
        RaceEvent::Finished(result) => Some(Completion::Finished(result)),
        RaceEvent::TimerFired => Some(Completion::TimedOut),
        RaceEvent::SignalFired => Some(Completion::Cancelled),
        RaceEvent::SignalClosed => None,
    }
}

/// Takes one event of the race.
///
/// The execution finishing, the timer firing and the cancel signal firing
/// each end the race. A cancel signal that closes without firing does not:
/// a discarded registration cancels nothing, and the query goes on waiting
/// for its execution and its timer.
pub fn race_step<T>(event: RaceEvent<T>) -> (next: Option<Completion<T>>)
    ensures
        next == race_outcome(event),
{
    match event {
        RaceEvent::Finished(result) => Some(Completion::Finished(result)),
        RaceEvent::TimerFired => Some(Completion::TimedOut),
        RaceEvent::SignalFired => Some(Completion::Cancelled),
        RaceEvent::SignalClosed => None,
    }
}

/// What the executor remembers of a query while it runs.
pub struct QueryTicket {
    timeout_secs: u64,
    token: Option<String>,
}

/// What the caller needs to run the race: the shared driver handle, the
/// ticket, and the cancel signal if the query has a token.
pub struct QueryStart<H> {
    pub handle: Arc<H>,
    pub ticket: QueryTicket,
    pub signal: Option<tokio::sync::oneshot::Receiver<()>>,
}

/// The characters of an optional string.
pub open spec fn token_view(token: Option<String>) -> Option<Seq<char>> {
    match token {
        Some(t) => Some(t@),
        None => None,
    }
}

/// The timeout that a query runs under: the one it names, else the default.
pub open spec fn effective_timeout(timeout_secs: Option<u64>) -> u64 {
    match timeout_secs {
        Some(secs) => secs,
        None => DEFAULT_QUERY_TIMEOUT_SECS,
    }
}

/// The registry after a query started: its token, if it has one, is
/// registered.
pub open spec fn registry_at_start(state: RegistryModel, token: Option<Seq<char>>)
    -> RegistryModel {
    match token {
        Some(t) => state.register(t),
        None => state,
    }
}

/// The result of a query, by what ended the race: the execution's own
/// result, `QueryTimeout` with the timeout it ran under, or
/// `QueryCancelled`.
pub open spec fn race_result<T>(timeout_secs: u64, completion: Completion<T>) -> Result<
    T,
    AppError,
> {
    match completion {
        Completion::Finished(result) => result,
        Completion::TimedOut => Err(AppError::QueryTimeout(timeout_secs)),
        Completion::Cancelled => Err(AppError::QueryCancelled),
    }
}

/// The registry after a query ended: where the execution or the timer
/// ended the race, the token's entry is removed; where the cancel signal
/// did, the cancel has removed it already and nothing is touched.
pub open spec fn registry_at_end<T>(
    state: RegistryModel,
    token: Option<Seq<char>>,
    completion: Completion<T>,
) -> RegistryModel {
    match (token, completion) {
        (Some(t), Completion::Finished(_)) => state.remove(t),
        (Some(t), Completion::TimedOut) => state.remove(t),
        _ => state,
    }
}

impl QueryTicket {
    /// The timeout the query runs under, in seconds.
    pub closed spec fn timeout(&self) -> u64 {
        self.timeout_secs
    }

    /// The query's token, if it has one.
    pub closed spec fn token(&self) -> Option<Seq<char>> {
        token_view(self.token)
    }

    /// The timeout the query runs under, in seconds.
    pub fn timeout_secs(&self) -> (secs: u64)
        ensures
            secs == self.timeout(),
    {
        self.timeout_secs
    }

    /// Whether the query can be cancelled by a token.
    pub fn is_cancellable(&self) -> (cancellable: bool)
        ensures
            cancellable == self.token().is_some(),
    {
        self.token.is_some()
    }
}

/// Starts a query: looks the driver up, settles the timeout and, if the
/// query has a token, registers it.
///
/// Fails with `ConnectionNotFound` exactly when the identifier is not
/// registered; nothing is registered then.
pub fn begin_query<H>(
    pool_manager: &PoolManager<H>,
    cancel_registry: &mut CancellationRegistry,
    connection_id: &str,
    timeout_secs: Option<u64>,
    query_id: Option<String>,
) -> (started: Result<QueryStart<H>, AppError>)
    ensures
        match started {
            Ok(start) => {
                &&& lookup_outcome(pool_manager@, connection_id@) == Ok::<H, ErrorModel>(
                    *start.handle,
                )
                &&& start.ticket.timeout() == effective_timeout(timeout_secs)
                &&& start.ticket.token() == token_view(query_id)
                &&& start.signal.is_some() == query_id.is_some()
                &&& final(cancel_registry)@ == registry_at_start(
                    old(cancel_registry)@,
                    token_view(query_id),
                )
            },
            Err(e) => {
                &&& lookup_outcome(pool_manager@, connection_id@) == Err::<H, ErrorModel>(e@)
                &&& final(cancel_registry)@ == old(cancel_registry)@
            },
        },
        old(cancel_registry)@.wf(),
        final(cancel_registry)@.wf(),
{
    cancel_registry.state_is_reachable();
    let handle = match pool_manager.get(connection_id) {
        Ok(handle) => handle,
        Err(e) => {
            return Err(e);
        },
    };
    let timeout_secs = match timeout_secs {
        Some(secs) => secs,
        None => DEFAULT_QUERY_TIMEOUT_SECS,
    };
    match query_id {
        Some(token) => {
            let signal = cancel_registry.register(token.clone());
            Ok(
                QueryStart {
                    handle,
                    ticket: QueryTicket { timeout_secs, token: Some(token) },
                    signal: Some(signal),
                },
            )
        },
        None => Ok(
            QueryStart { handle, ticket: QueryTicket { timeout_secs, token: None }, signal: None },
        ),
    }
}

/// Ends a query: drops the token's registration where the execution or the
/// timer ended the race, and gives the result.
pub fn finish_query(
    cancel_registry: &mut CancellationRegistry,
    ticket: &QueryTicket,
    completion: Completion<QueryResponse>,
) -> (result: Result<QueryResponse, AppError>)
    ensures
        result == race_result(ticket.timeout(), completion),
        final(cancel_registry)@ == registry_at_end(
            old(cancel_registry)@,
            ticket.token(),
            completion,
        ),
        old(cancel_registry)@.wf(),
        final(cancel_registry)@.wf(),
{
    cancel_registry.state_is_reachable();
    match completion {
        Completion::Finished(result) => {
            match &ticket.token {
                Some(token) => cancel_registry.remove(token.as_str()),
                None => {},
            }
            result
        },
        Completion::TimedOut => {
            match &ticket.token {
                Some(token) => cancel_registry.remove(token.as_str()),
                None => {},
            }
            Err(AppError::QueryTimeout(ticket.timeout_secs))
        },
        Completion::Cancelled => Err(AppError::QueryCancelled),
    }
}

/// Cancels the query registered under a token. Returns whether there was
/// one.
pub fn cancel_query(query_id: &str, cancel_registry: &mut CancellationRegistry) -> (found: Result<
    bool,
    AppError,
>)
    ensures
        found == Ok::<bool, AppError>(old(cancel_registry)@.cancels(query_id@)),
        final(cancel_registry)@ == old(cancel_registry)@.cancel(query_id@),
        old(cancel_registry)@.wf(),
        final(cancel_registry)@.wf(),
{
    Ok(cancel_registry.cancel(query_id))
}

/// A query with a token leaves no entry of that token behind, whatever
/// ended the race: the executor removes it when the execution or the timer
/// ends the race, and the cancel that ends the race has removed it itself.
pub proof fn query_leaves_no_entry<T>(
    state: RegistryModel,
    token: Seq<char>,
    completion: Completion<T>,
)
    ensures
        ({
            let started = registry_at_start(state, Some(token));
            let raced = if completion is Cancelled {
                started.cancel(token)
            } else {
                started
            };
            let ended = registry_at_end(raced, Some(token), completion);
            &&& !ended.pending.contains_key(token)
            &&& !ended.cancels(token)
            &&& completion is Cancelled ==> ended == raced
        }),
{
}

/// A query that finishes before its timer and before any cancel gives the
/// execution's own result, and its token is not fired.
pub proof fn finished_query_gives_its_result(
    state: RegistryModel,
    token: Seq<char>,
    timeout_secs: u64,
    outcome: Result<QueryResponse, AppError>,
)
    ensures
        race_result(timeout_secs, Completion::Finished(outcome)) == outcome,
        registry_at_end(
            registry_at_start(state, Some(token)),
            Some(token),
            Completion::Finished(outcome),
        ).fired == state.fired,
{
}

/// A query whose token is registered anew while it runs is not cancelled
/// by that: its signal closes unfired, which does not end its race, and a
/// cancel of the token afterwards fires the newer registration only.
pub proof fn replaced_registration_does_not_cancel<T>(state: RegistryModel, token: Seq<char>)
    requires
        state.wf(),
    ensures
        race_outcome(RaceEvent::<T>::SignalClosed) is None,
        ({
            let first = state.issued;
            let twice = state.register(token).register(token);
            &&& twice.discarded(first)
            &&& !twice.cancel(token).fired.contains(first)
        }),
{
    second_registration_replaces_first(state, token);
}

/// A query whose engine answers one row of one column that normalizes to
/// an integer, before the timer and before any cancel, gives a row set of
/// one column descriptor and one row, counted as one, whose only cell is
/// that integer.
pub proof fn one_integer_answer_gives_one_int_cell(
    engine: DatabaseType,
    rows: Seq<WireRow>,
    elapsed_ms: u64,
    response: QueryResponse,
    timeout_secs: u64,
    number: i64,
)
    requires
        response_of(engine, rows, elapsed_ms, response),
        rows.len() == 1,
        rows[0].columns@.len() == 1,
        column_cell(engine, rows[0].columns@[0]) == CellModel::Int(number),
    ensures
        race_result(timeout_secs, Completion::Finished(Ok(response))) == Ok::<
            QueryResponse,
            AppError,
        >(response),
        response.columns@.len() == 1,
        response.rows@.len() == 1,
        response.row_count == 1,
        response.rows@[0]@.len() == 1,
        response.rows@[0]@[0]@ == CellModel::Int(number),
        response.aligned(),
{
    assert(response.rows@[0]@.len() == rows[0].columns@.len());
    assert(response.rows@[0]@[0]@ == column_cell(engine, rows[0].columns@[0]));
}

/// A query without a token never touches the registry.
pub proof fn query_without_token_keeps_registry<T>(state: RegistryModel, completion: Completion<T>)
    ensures
        registry_at_start(state, None) == state,
        registry_at_end(state, None::<Seq<char>>, completion) == state,
{
}

} // verus!
