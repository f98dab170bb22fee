use governor::clock::FakeClock;
use governor::keyed::KeyedRateLimiter;
use governor::outcome::CheckError;
use governor::quota::Quota;

fn keyed_at(quota: Quota, start_ns: u64) -> KeyedRateLimiter<FakeClock> {
    KeyedRateLimiter::keyed_with_clock(quota, FakeClock::starting_at(start_ns))
}

#[test]
fn key_independence() {
    let quota = Quota::new(2, 1_000).unwrap();
    let mut limiter = keyed_at(quota, 0);
    // Exhaust key 1's budget entirely.
    assert!(limiter.check_key(1).is_ok());
    assert!(limiter.check_key(1).is_ok());
    assert!(limiter.check_key(1).is_err());
    // Key 2 is not denied by key 1's exhaustion.
    assert!(limiter.check_key(2).is_ok());
    assert!(limiter.check_key(2).is_ok());
    // And key 1 is still exhausted afterwards.
    assert!(limiter.check_key(1).is_err());
}

#[test]
fn keyed_insufficient_capacity() {
    let quota = Quota::new(2, 1_000).unwrap();
    let mut limiter = keyed_at(quota, 0);
    assert_eq!(limiter.check_key_n(7, 3), Err(CheckError::InsufficientCapacity));
    // The rejection commits nothing: no cell was created for the key.
    assert_eq!(limiter.len(), 0);
}

#[test]
fn idle_key_reclamation() {
    // Burst 2, one cell per 1000ns: tolerance 2000ns.
    let quota = Quota::new(2, 1_000).unwrap();
    let mut limiter = keyed_at(quota, 0);
    assert!(limiter.check_key(1).is_ok());
    limiter.clock.advance(3_001);
    assert!(limiter.check_key(2).is_ok());
    assert_eq!(limiter.len(), 2);
    // Key 1's cell (state 1_000) is now more than the tolerance behind the
    // clock (3_001); key 2's (state 4_001) is not.
    limiter.retain_recent();
    assert_eq!(limiter.len(), 1);
    // The reclaimed key behaves exactly like a first use: a fresh, full
    // budget, with no stale denial state inherited.
    assert!(limiter.check_key(1).is_ok());
    assert!(limiter.check_key(1).is_ok());
    assert!(limiter.check_key(1).is_err());
}

#[test]
fn reclamation_is_not_premature() {
    let quota = Quota::new(2, 1_000).unwrap();
    let mut limiter = keyed_at(quota, 0);
    assert!(limiter.check_key(1).is_ok());
    // Exactly at the edge the key is kept: state 1_000, tolerance 2_000,
    // and a cell is stale only strictly beyond state + tolerance.
    limiter.clock.advance(3_000);
    limiter.retain_recent();
    assert_eq!(limiter.len(), 1);
    limiter.clock.advance(1);
    limiter.retain_recent();
    assert_eq!(limiter.len(), 0);
}

#[test]
fn memleak_keyed() {
    let n_iter: usize = 500_000;
    let quota = Quota::per_second(50).unwrap();
    let mut bucket = keyed_at(quota, 0);
    for i in 0..n_iter {
        drop(bucket.check_key((i % 1000) as u64));
    }
    // Cycling through 1_000 distinct keys leaves exactly 1_000 cells,
    // however many checks ran.
    assert_eq!(bucket.len(), 1000);
    bucket.retain_recent();
    assert_eq!(bucket.len(), 1000);
}
