//! Connecting, disconnecting and probing.

use crate::db::pool::{removal_outcome, PoolManager};
use crate::error::{AppError, ErrorModel};
use crate::models::connection::{ConnectionConfig, DatabaseType};
use vstd::prelude::*;
use vstd::string::StringExecFns;

verus! {

/// How many connections a probe may open.
pub const PROBE_MAX_CONNECTIONS: u32 = 1;

/// How long a probe waits for its connection, in seconds.
pub const PROBE_ACQUIRE_TIMEOUT_SECS: u64 = 10;

/// The statement a probe runs to see that the session is alive.
pub const PROBE_STATEMENT: &'static str = "SELECT 1";

/// Registers the driver of a session just opened under the identifier that
/// its configuration names, and gives that identifier.
pub fn register_connection<H>(
    pool_manager: &mut PoolManager<H>,
    config: &ConnectionConfig,
    handle: H,
) -> (id: String)
    ensures
        id@ == config.id@,
        final(pool_manager)@ == old(pool_manager)@.insert(config.id@, handle),
{
    pool_manager.add(config.id.clone(), handle);
    config.id.clone()
}

/// Unregisters a connection.
///
/// Fails with `ConnectionNotFound` exactly when the identifier is not
/// registered.
pub fn disconnect_db<H>(connection_id: &str, pool_manager: &mut PoolManager<H>) -> (done: Result<
    (),
    AppError,
>)
    ensures
        final(pool_manager)@ == old(pool_manager)@.remove(connection_id@),
        match done {
            Ok(_) => removal_outcome(old(pool_manager)@, connection_id@) == Ok::<(), ErrorModel>(
                (),
            ),
            Err(e) => removal_outcome(old(pool_manager)@, connection_id@) == Err::<
                (),
                ErrorModel,
            >(e@),
        },
{
    pool_manager.remove(connection_id)
}

/// What a probe is set up with.
pub struct ProbePlan {
    pub db_type: DatabaseType,
    pub url: String,
    pub max_connections: u32,
    pub acquire_timeout_secs: u64,
    pub statement: String,
}

/// Sets a probe up: a throwaway pool of one connection to the configured
/// URL, with the fixed acquisition timeout and the liveness statement.
pub fn plan_probe(config: &ConnectionConfig) -> (plan: ProbePlan)
    ensures
        plan.db_type == config.db_type,
        plan.url@ == config.url(),
        plan.max_connections == PROBE_MAX_CONNECTIONS,
        plan.acquire_timeout_secs == PROBE_ACQUIRE_TIMEOUT_SECS,
        plan.statement@ == PROBE_STATEMENT@,
{
    ProbePlan {
        db_type: config.db_type,
        url: config.to_connection_url(),
        max_connections: PROBE_MAX_CONNECTIONS,
        acquire_timeout_secs: PROBE_ACQUIRE_TIMEOUT_SECS,
        statement: String::from_str(PROBE_STATEMENT),
    }
}

/// Where a probe stands: what it does next, or what it reports.
#[derive(Clone, Copy, Debug, PartialEq, Eq, Structural)]
pub enum ProbeStep {
    /// Open the throwaway connection.
    Connect,
    /// Run the liveness statement.
    RunStatement,
    /// Close the connection; the flag is what the statement showed.
    Close(bool),
    /// The probe is over; the flag is its answer.
    Report(bool),
}

/// The step after a step, by whether the step succeeded.
pub open spec fn next_step(step: ProbeStep, succeeded: bool) -> ProbeStep {
    match step {
        ProbeStep::Connect => if succeeded {
            ProbeStep::RunStatement
        } else {
            ProbeStep::Report(false)
        },
        ProbeStep::RunStatement => ProbeStep::Close(succeeded),
        ProbeStep::Close(alive) => ProbeStep::Report(alive),
        ProbeStep::Report(alive) => ProbeStep::Report(alive),
    }
}

/// Moves a probe on by one step.
///
/// A failed connect ends the probe with `false`. After the statement the
/// connection is closed whatever the statement showed, and the probe then
/// reports whether the statement succeeded. No failure is raised.
pub fn advance_probe(step: ProbeStep, succeeded: bool) -> (next: ProbeStep)
    ensures
        next == next_step(step, succeeded),
{
    match step {
        ProbeStep::Connect => if succeeded {
            ProbeStep::RunStatement
        } else {
            ProbeStep::Report(false)
        },
        ProbeStep::RunStatement => ProbeStep::Close(succeeded),
        ProbeStep::Close(alive) => ProbeStep::Report(alive),
        ProbeStep::Report(alive) => ProbeStep::Report(alive),
    }
}

/// A probe whose connect fails reports `false` at once, without running
/// the statement.
pub proof fn unreachable_host_reports_false()
    ensures
        next_step(ProbeStep::Connect, false) == ProbeStep::Report(false),
{
}

/// A probe that connected closes its connection before it reports, and
/// reports what the statement showed, whether or not the close went well.
pub proof fn connected_probe_closes_then_reports(statement_succeeded: bool, close_succeeded: bool)
    ensures
        ({
            let connected = next_step(ProbeStep::Connect, true);
            let ran = next_step(connected, statement_succeeded);
            let closed = next_step(ran, close_succeeded);
            &&& connected == ProbeStep::RunStatement
            &&& ran == ProbeStep::Close(statement_succeeded)
            &&& closed == ProbeStep::Report(statement_succeeded)
        }),
{
}

} // verus!
