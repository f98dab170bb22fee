use governor::clock::FakeClock;
use governor::direct::RateLimiter;
use governor::outcome::CheckError;
use governor::quota::Quota;

fn direct_at(quota: Quota, start_ns: u64) -> RateLimiter<FakeClock> {
    RateLimiter::direct_with_clock(quota, FakeClock::starting_at(start_ns))
}

#[test]
fn quota_construction() {
    assert!(Quota::new(0, 5).is_none());
    assert!(Quota::new(5, 0).is_none());
    assert!(Quota::new(u64::MAX, 2).is_none());
    let q = Quota::new(3, 100).unwrap();
    assert_eq!(q.max_burst(), 3);
    assert_eq!(q.emission_interval(), 100);
    assert_eq!(q.tolerance(), 300);
}

#[test]
fn quota_per_second() {
    assert!(Quota::per_second(0).is_none());
    assert!(Quota::per_second(2_000_000_000).is_none());
    let q = Quota::per_second(3).unwrap();
    assert_eq!(q.max_burst(), 3);
    assert_eq!(q.emission_interval(), 333_333_333);
    assert_eq!(q.tolerance(), 999_999_999);
    let q = Quota::per_second(1_000_000).unwrap();
    assert_eq!(q.emission_interval(), 1_000);
}

#[test]
fn burst_then_deny() {
    let quota = Quota::new(3, 100).unwrap();
    let mut limiter = direct_at(quota, 1_000);
    assert!(limiter.check().is_ok());
    assert!(limiter.check().is_ok());
    assert!(limiter.check().is_ok());
    match limiter.check() {
        Err(CheckError::Denied(negative)) => {
            // TAT is 1_300 after three admissions; the candidate 1_400
            // exceeds now + tolerance, and retry fits at 1_400 - 300.
            assert_eq!(negative.earliest_possible(), 1_100);
        },
        other => panic!("expected a denial, got {:?}", other),
    }
}

#[test]
fn insufficient_capacity_is_absolute() {
    let quota = Quota::new(3, 100).unwrap();
    // A freshly constructed, fully available limiter still refuses n > burst.
    let mut limiter = direct_at(quota, 0);
    assert_eq!(limiter.check_n(4), Err(CheckError::InsufficientCapacity));
    // And so does one in any later state.
    assert!(limiter.check_n(3).is_ok());
    assert_eq!(limiter.check_n(4), Err(CheckError::InsufficientCapacity));
    assert_eq!(limiter.check_n(u64::MAX), Err(CheckError::InsufficientCapacity));
}

#[test]
fn wait_time_correctness() {
    // Burst 1, emission interval 1ms: a denial at t0 against a just-filled
    // bucket reports earliest retry exactly t0 + interval, and a check
    // exactly then succeeds.
    let interval: u64 = 1_000_000;
    let quota = Quota::new(1, interval).unwrap();
    let t0: u64 = 5_000_000;
    let mut limiter = direct_at(quota, t0);
    assert!(limiter.check().is_ok());
    match limiter.check() {
        Err(CheckError::Denied(negative)) => {
            assert_eq!(negative.earliest_possible(), t0 + interval);
        },
        other => panic!("expected a denial, got {:?}", other),
    }
    limiter.clock.advance(interval);
    assert!(limiter.check().is_ok());
}

#[test]
fn admission_spacing_burst_one() {
    let interval: u64 = 1_000;
    let quota = Quota::new(1, interval).unwrap();
    let mut limiter = direct_at(quota, 0);
    assert!(limiter.check().is_ok());
    limiter.clock.advance(interval - 1);
    assert!(limiter.check().is_err());
    limiter.clock.advance(1);
    assert!(limiter.check().is_ok());
}

#[test]
fn rate_conformance_window() {
    // Burst 3, one cell per 100ns: checks every 10ns over [0, 1000] admit
    // exactly burst + window/interval = 13 times.
    let quota = Quota::new(3, 100).unwrap();
    let mut limiter = direct_at(quota, 0);
    let mut admitted: u64 = 0;
    for step in 0..=100u64 {
        if limiter.check().is_ok() {
            admitted += 1;
        }
        if step < 100 {
            limiter.clock.advance(10);
        }
    }
    assert_eq!(admitted, 13);
}

#[test]
fn reference_reading_tracks_clock() {
    let quota = Quota::new(1, 10).unwrap();
    let mut limiter = direct_at(quota, 42);
    assert_eq!(limiter.reference_reading(), 42);
    limiter.clock.advance(8);
    assert_eq!(limiter.reference_reading(), 50);
    assert_eq!(limiter.quota(), quota);
}

#[test]
fn memleak_gcra() {
    let n_iter: usize = 500_000;
    let quota = Quota::per_second(1_000_000).unwrap();
    let mut bucket = direct_at(quota, 0);
    for _i in 0..n_iter {
        drop(bucket.check());
    }
    // The direct store is a single cell however many checks run.
    assert!(bucket.check().is_ok());
}

#[test]
fn memleak_gcra_multi() {
    let n_iter: usize = 500_000;
    let quota = Quota::per_second(1_000_000).unwrap();
    let mut bucket = direct_at(quota, 0);
    for _i in 0..n_iter {
        drop(bucket.check_n(2));
    }
    assert_eq!(bucket.check_n(2), Err(CheckError::Denied(governor::outcome::NegativeOutcome {
        earliest_retry: 2_000,
    })));
}
