use pgpool::errors::DbError;
use pgpool::mapper::decode_person;
use pgpool::pool::PoolState;
use pgpool::row::{SqlRow, SqlValue};

#[test]
fn at_most_capacity_leases() {
    let mut s = PoolState::new(2);
    assert_eq!(s.acquire(), Ok(()));
    assert_eq!(s.acquire(), Ok(()));
    assert_eq!(s.acquire(), Err(DbError::PoolExhausted));
    assert_eq!(s.leased, 2);
    s.release();
    assert_eq!(s.acquire(), Ok(()));
    assert_eq!(s.leased, 2);
}

#[test]
fn capacity_one_pool_serializes() {
    let mut s = PoolState::new(1);
    assert_eq!(s.acquire(), Ok(()));
    assert_eq!(s.acquire(), Err(DbError::PoolExhausted));
    s.release();
    assert_eq!(s.acquire(), Ok(()));
}

#[test]
fn release_after_failed_query_returns_connection() {
    let mut s = PoolState::new(4);
    assert_eq!(s.acquire(), Ok(()));
    // the caller's query fails between acquire and release
    let bad = SqlRow::new(vec![SqlValue::Text("x".to_string())]);
    assert!(decode_person(&bad).is_err());
    // the scoped release still runs exactly once
    s.release();
    assert_eq!(s.leased, 0);
    assert_eq!(s.idle, 1);
    // and the connection is available again
    assert_eq!(s.acquire(), Ok(()));
}

#[test]
fn discard_drops_broken_connection_without_idling_it() {
    let mut s = PoolState::new(2);
    assert_eq!(s.acquire(), Ok(()));
    s.discard();
    assert_eq!(s.leased, 0);
    assert_eq!(s.idle, 0);
    // room is free again for a lazy replacement
    assert_eq!(s.acquire(), Ok(()));
}

#[test]
fn zero_capacity_pool_never_leases() {
    let mut s = PoolState::new(0);
    assert_eq!(s.acquire(), Err(DbError::PoolExhausted));
}
