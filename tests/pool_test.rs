use bouncer::ConnectionPool;

#[test]
fn checkout_opens_only_when_nothing_is_idle() {
    let mut pool: ConnectionPool<u32> = ConnectionPool::new();
    let mut opened = 0u32;
    let mut held = vec![];
    for _ in 0..3 {
        let p = pool.checkout(|| -> Result<u32, ()> {
            opened += 1;
            Ok(opened)
        });
        held.push(p.unwrap());
    }
    assert_eq!(opened, 3);
    let mut seen: Vec<u32> = held.iter_mut().map(|p| *p.conn()).collect();
    seen.sort();
    seen.dedup();
    assert_eq!(seen.len(), 3);
    for p in held {
        pool.checkin(p, true);
    }
    assert_eq!(pool.idle_count(), 3);
    for _ in 0..3 {
        let mut p = pool.checkout(|| -> Result<u32, ()> { panic!("an idle connection was there") }).unwrap();
        assert!(*p.conn() <= 3);
        pool.checkin(p, true);
    }
    assert_eq!(pool.idle_count(), 3);
}

#[test]
fn failed_exchange_drops_the_connection() {
    let mut pool: ConnectionPool<u32> = ConnectionPool::new();
    let p = pool.checkout(|| -> Result<u32, ()> { Ok(1) }).unwrap();
    pool.checkin(p, false);
    assert_eq!(pool.idle_count(), 0);
    let mut q = pool.checkout(|| -> Result<u32, ()> { Ok(2) }).unwrap();
    assert_eq!(*q.conn(), 2);
}

#[test]
fn open_failure_leaves_the_pool_alone() {
    let mut pool: ConnectionPool<u32> = ConnectionPool::new();
    let r = pool.checkout(|| -> Result<u32, &str> { Err("refused") });
    assert!(matches!(r, Err("refused")));
    assert_eq!(pool.idle_count(), 0);
}
