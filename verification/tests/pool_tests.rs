use user_directory::errors::ServiceError;
use user_directory::pool::Pool;

#[test]
fn acquire_until_exhausted() {
    let mut pool = Pool::new(2);
    let a = pool.acquire().unwrap();
    let b = pool.acquire().unwrap();
    assert_eq!(pool.idle(), 0);
    let r = pool.acquire();
    assert!(matches!(r, Err(ServiceError::Unavailable)));
    pool.release(a);
    pool.release(b);
    assert_eq!(pool.idle(), 2);
}

#[test]
fn release_makes_connection_lendable_again() {
    let mut pool = Pool::new(1);
    let a = pool.acquire().unwrap();
    assert!(matches!(pool.acquire(), Err(ServiceError::Unavailable)));
    pool.release(a);
    let b = pool.acquire().unwrap();
    assert!(!b.has_open_transaction());
    pool.release(b);
}

#[test]
fn lease_transaction_lifecycle() {
    let mut pool = Pool::new(1);
    let mut lease = pool.acquire().unwrap();
    assert!(!lease.has_open_transaction());
    lease.begin_transaction();
    assert!(lease.has_open_transaction());
    lease.commit();
    assert!(!lease.has_open_transaction());
    lease.begin_transaction();
    lease.rollback();
    assert!(!lease.has_open_transaction());
    pool.release(lease);
}

#[test]
fn zero_sized_pool_is_always_unavailable() {
    let mut pool = Pool::new(0);
    assert!(matches!(pool.acquire(), Err(ServiceError::Unavailable)));
}
