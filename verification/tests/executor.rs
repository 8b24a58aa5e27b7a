use dbclient::commands::connection::{
    advance_probe, plan_probe, ProbeStep, PROBE_ACQUIRE_TIMEOUT_SECS, PROBE_MAX_CONNECTIONS,
    PROBE_STATEMENT,
};
use dbclient::commands::query::{
    begin_query, cancel_query, finish_query, race_step, Completion, RaceEvent,
    DEFAULT_QUERY_TIMEOUT_SECS,
};
use dbclient::commands::schema::{finish_data_read, DEFAULT_DATA_TIMEOUT_SECS};
use dbclient::db::cancel::CancellationRegistry;
use dbclient::db::pool::PoolManager;
use dbclient::error::AppError;
use dbclient::models::connection::{ConnectionConfig, DatabaseType};
use dbclient::models::query::{CellValue, ColumnDef, QueryResponse};
use tokio::sync::oneshot::error::TryRecvError;

fn one_row() -> QueryResponse {
    QueryResponse {
        columns: vec![ColumnDef { name: "?column?".to_string(), data_type: "INT4".to_string() }],
        rows: vec![vec![CellValue::Int(1)]],
        row_count: 1,
        execution_time_ms: 2,
    }
}

fn pool_with(id: &str) -> PoolManager<u32> {
    let mut pool = PoolManager::new();
    pool.add(id.to_string(), 7);
    pool
}

#[test]
fn unknown_connection_short_circuits() {
    let pool = pool_with("db");
    let mut reg = CancellationRegistry::new();
    let started = begin_query(&pool, &mut reg, "nope", Some(5), Some("q1".to_string()));
    match started {
        Err(e) => assert_eq!(
            e,
            AppError::ConnectionNotFound("Connection 'nope' not found".to_string())
        ),
        Ok(_) => panic!("lookup must fail"),
    }
    assert!(!reg.is_registered("q1"));
}

#[test]
fn default_timeout_applies_when_none_is_given() {
    let pool = pool_with("db");
    let mut reg = CancellationRegistry::new();
    let start = begin_query(&pool, &mut reg, "db", None, None).unwrap();
    assert_eq!(DEFAULT_QUERY_TIMEOUT_SECS, 30);
    assert_eq!(start.ticket.timeout_secs(), 30);
    assert!(!start.ticket.is_cancellable());
    assert!(start.signal.is_none());
    assert_eq!(*start.handle, 7);
    let start = begin_query(&pool, &mut reg, "db", Some(0), None).unwrap();
    assert_eq!(start.ticket.timeout_secs(), 0);
    let start = begin_query(&pool, &mut reg, "db", Some(u64::MAX), None).unwrap();
    assert_eq!(start.ticket.timeout_secs(), u64::MAX);
}

#[test]
fn finished_query_returns_its_rows_and_leaves_no_entry() {
    let pool = pool_with("db");
    let mut reg = CancellationRegistry::new();
    let start = begin_query(&pool, &mut reg, "db", Some(5), Some("q1".to_string())).unwrap();
    assert!(start.ticket.is_cancellable());
    assert!(reg.is_registered("q1"));
    let mut signal = start.signal.unwrap();
    let result = finish_query(&mut reg, &start.ticket, Completion::Finished(Ok(one_row())));
    assert_eq!(result, Ok(one_row()));
    assert!(!reg.is_registered("q1"));
    assert_eq!(signal.try_recv(), Err(TryRecvError::Closed));
    assert!(!reg.cancel("q1"));
}

#[test]
fn engine_failure_is_passed_through_and_leaves_no_entry() {
    let pool = pool_with("db");
    let mut reg = CancellationRegistry::new();
    let start = begin_query(&pool, &mut reg, "db", None, Some("q1".to_string())).unwrap();
    let failure = AppError::Database("syntax error at or near \"selec\"".to_string());
    let result = finish_query(&mut reg, &start.ticket, Completion::Finished(Err(failure.clone())));
    assert_eq!(result, Err(failure));
    assert!(!reg.is_registered("q1"));
}

#[test]
fn timed_out_query_reports_its_timeout() {
    let pool = pool_with("db");
    let mut reg = CancellationRegistry::new();
    let start = begin_query(&pool, &mut reg, "db", Some(1), None).unwrap();
    let result = finish_query(&mut reg, &start.ticket, Completion::TimedOut);
    assert_eq!(result, Err(AppError::QueryTimeout(1)));
}

#[test]
fn timed_out_query_with_a_token_leaves_no_entry() {
    let pool = pool_with("db");
    let mut reg = CancellationRegistry::new();
    let start = begin_query(&pool, &mut reg, "db", None, Some("slow".to_string())).unwrap();
    let result = finish_query(&mut reg, &start.ticket, Completion::TimedOut);
    assert_eq!(result, Err(AppError::QueryTimeout(30)));
    assert!(!reg.is_registered("slow"));
    assert!(!reg.cancel("slow"));
}

#[test]
fn cancelled_query_fails_and_a_later_cancel_is_false() {
    let pool = pool_with("db");
    let mut reg = CancellationRegistry::new();
    let start = begin_query(&pool, &mut reg, "db", Some(60), Some("q1".to_string())).unwrap();
    let mut signal = start.signal.unwrap();
    assert_eq!(cancel_query("q1", &mut reg), Ok(true));
    assert_eq!(signal.try_recv(), Ok(()));
    let result = finish_query(&mut reg, &start.ticket, Completion::Cancelled);
    assert_eq!(result, Err(AppError::QueryCancelled));
    assert_eq!(cancel_query("q1", &mut reg), Ok(false));
    assert!(!reg.cancel("q1"));
}

#[test]
fn cancelled_path_does_not_touch_a_newer_registration() {
    let pool = pool_with("db");
    let mut reg = CancellationRegistry::new();
    let first = begin_query(&pool, &mut reg, "db", None, Some("q".to_string())).unwrap();
    assert_eq!(cancel_query("q", &mut reg), Ok(true));
    let second = begin_query(&pool, &mut reg, "db", None, Some("q".to_string())).unwrap();
    let result = finish_query(&mut reg, &first.ticket, Completion::Cancelled);
    assert_eq!(result, Err(AppError::QueryCancelled));
    assert!(reg.is_registered("q"));
    let mut signal = second.signal.unwrap();
    assert_eq!(signal.try_recv(), Err(TryRecvError::Empty));
}

#[test]
fn query_without_a_token_leaves_the_registry_alone() {
    let pool = pool_with("db");
    let mut reg = CancellationRegistry::new();
    let _other = reg.register("other".to_string());
    let start = begin_query(&pool, &mut reg, "db", None, None).unwrap();
    let result = finish_query(&mut reg, &start.ticket, Completion::Finished(Ok(one_row())));
    assert_eq!(result, Ok(one_row()));
    assert!(reg.is_registered("other"));
}

#[test]
fn cancel_query_of_an_unknown_token_is_false() {
    let mut reg = CancellationRegistry::new();
    assert_eq!(cancel_query("nothing", &mut reg), Ok(false));
}

#[test]
fn data_read_runs_under_the_fixed_timeout() {
    assert_eq!(DEFAULT_DATA_TIMEOUT_SECS, 30);
    assert_eq!(
        finish_data_read::<QueryResponse>(Completion::TimedOut),
        Err(AppError::QueryTimeout(30))
    );
    assert_eq!(finish_data_read(Completion::Finished(Ok(one_row()))), Ok(one_row()));
    assert_eq!(finish_data_read(Completion::Finished(Ok(41i64))), Ok(41));
    let failure = AppError::Database("relation \"t\" does not exist".to_string());
    assert_eq!(
        finish_data_read::<i64>(Completion::Finished(Err(failure.clone()))),
        Err(failure)
    );
    assert_eq!(finish_data_read::<i64>(Completion::Cancelled), Err(AppError::QueryCancelled));
}

#[test]
fn probe_of_an_unreachable_host_reports_false() {
    let step = advance_probe(ProbeStep::Connect, false);
    assert_eq!(step, ProbeStep::Report(false));
    assert_eq!(advance_probe(step, true), ProbeStep::Report(false));
}

#[test]
fn probe_closes_before_it_reports() {
    let step = advance_probe(ProbeStep::Connect, true);
    assert_eq!(step, ProbeStep::RunStatement);
    let ok = advance_probe(step, true);
    assert_eq!(ok, ProbeStep::Close(true));
    assert_eq!(advance_probe(ok, true), ProbeStep::Report(true));
    assert_eq!(advance_probe(ok, false), ProbeStep::Report(true));
    let failed = advance_probe(step, false);
    assert_eq!(failed, ProbeStep::Close(false));
    assert_eq!(advance_probe(failed, true), ProbeStep::Report(false));
    assert_eq!(advance_probe(ProbeStep::Report(true), false), ProbeStep::Report(true));
}

#[test]
fn probe_plan_is_one_connection_ten_seconds_select_one() {
    let config = ConnectionConfig {
        id: "x".to_string(),
        name: "x".to_string(),
        db_type: DatabaseType::MySQL,
        host: "10.0.0.1".to_string(),
        port: 3306,
        username: "root".to_string(),
        password: "pw".to_string(),
        database: "shop".to_string(),
        use_ssl: false,
    };
    let plan = plan_probe(&config);
    assert_eq!(plan.db_type, DatabaseType::MySQL);
    assert_eq!(plan.url, "mysql://root:pw@10.0.0.1:3306/shop");
    assert_eq!(plan.max_connections, 1);
    assert_eq!(plan.acquire_timeout_secs, 10);
    assert_eq!(plan.statement, "SELECT 1");
    assert_eq!(PROBE_MAX_CONNECTIONS, 1);
    assert_eq!(PROBE_ACQUIRE_TIMEOUT_SECS, 10);
    assert_eq!(PROBE_STATEMENT, "SELECT 1");
}

#[test]
fn race_ends_on_finish_timer_and_cancel() {
    assert!(matches!(
        race_step(RaceEvent::Finished(Ok(one_row()))),
        Some(Completion::Finished(Ok(r))) if r == one_row()
    ));
    let failure = AppError::Database("boom".to_string());
    assert!(matches!(
        race_step::<QueryResponse>(RaceEvent::Finished(Err(failure.clone()))),
        Some(Completion::Finished(Err(e))) if e == failure
    ));
    assert!(matches!(
        race_step::<QueryResponse>(RaceEvent::TimerFired),
        Some(Completion::TimedOut)
    ));
    assert!(matches!(
        race_step::<QueryResponse>(RaceEvent::SignalFired),
        Some(Completion::Cancelled)
    ));
}

#[test]
fn closed_signal_does_not_end_the_race() {
    assert!(race_step::<QueryResponse>(RaceEvent::SignalClosed).is_none());
}

#[test]
fn replaced_registration_leaves_the_first_query_running() {
    let pool = pool_with("db");
    let mut reg = CancellationRegistry::new();
    let first = begin_query(&pool, &mut reg, "db", None, Some("q".to_string())).unwrap();
    let second = begin_query(&pool, &mut reg, "db", None, Some("q".to_string())).unwrap();
    let mut first_signal = first.signal.unwrap();
    let mut second_signal = second.signal.unwrap();
    assert_eq!(first_signal.try_recv(), Err(TryRecvError::Closed));
    assert!(race_step::<QueryResponse>(RaceEvent::SignalClosed).is_none());
    assert_eq!(cancel_query("q", &mut reg), Ok(true));
    assert_eq!(second_signal.try_recv(), Ok(()));
    assert_eq!(first_signal.try_recv(), Err(TryRecvError::Closed));
    let result = finish_query(&mut reg, &first.ticket, Completion::Finished(Ok(one_row())));
    assert_eq!(result, Ok(one_row()));
}
