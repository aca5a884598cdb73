use station_api::bucket::{Poll, TokenBucket};

const SECOND: u64 = 1_000_000_000;

#[test]
fn burst_of_capacity_then_wait_until_interval() {
    let mut b = TokenBucket::new(3, SECOND, 1_000);
    assert_eq!(b.poll_acquire(1_000), Poll::Granted);
    assert_eq!(b.poll_acquire(1_001), Poll::Granted);
    assert_eq!(b.poll_acquire(1_002), Poll::Granted);
    assert_eq!(b.poll_acquire(1_010), Poll::Wait(SECOND - 10));
    assert_eq!(b.tokens(), 0);
    assert_eq!(b.capacity(), 0);
}

#[test]
fn two_permits_held_at_once() {
    let mut b = TokenBucket::new(2, SECOND, 0);
    assert_eq!(b.poll_acquire(0), Poll::Granted);
    assert_eq!(b.poll_acquire(0), Poll::Granted);
    b.release();
    b.release();
    assert_eq!(b.capacity(), 2);
}

#[test]
fn release_never_exceeds_max_capacity() {
    let mut b = TokenBucket::new(2, SECOND, 0);
    b.release();
    assert_eq!(b.capacity(), 2);
    assert_eq!(b.poll_acquire(5), Poll::Granted);
    b.release();
    b.release();
    b.release();
    assert_eq!(b.capacity(), 2);
    assert_eq!(b.max_capacity(), 2);
}

#[test]
fn refill_goes_to_reduced_capacity() {
    let mut b = TokenBucket::new(2, SECOND, 0);
    assert_eq!(b.poll_acquire(0), Poll::Granted);
    assert_eq!(b.poll_acquire(0), Poll::Granted);
    // Both permits still held: the refill brings back no token.
    assert_eq!(b.poll_acquire(SECOND), Poll::Wait(SECOND));
    b.release();
    // One permit back, but tokens wait for the next refill.
    assert_eq!(b.tokens(), 0);
    assert_eq!(b.poll_acquire(SECOND + 1), Poll::Wait(SECOND - 1));
    assert_eq!(b.poll_acquire(2 * SECOND), Poll::Granted);
    assert_eq!(b.poll_acquire(2 * SECOND), Poll::Wait(SECOND));
}

#[test]
fn refill_restores_released_capacity() {
    let mut b = TokenBucket::new(3, 100, 0);
    assert_eq!(b.poll_acquire(0), Poll::Granted);
    b.release();
    assert_eq!(b.tokens(), 2);
    assert_eq!(b.poll_acquire(100), Poll::Granted);
    assert_eq!(b.tokens(), 2);
    assert_eq!(b.capacity(), 2);
}

#[test]
fn zero_capacity_always_waits() {
    let mut b = TokenBucket::new(0, 50, 0);
    assert_eq!(b.poll_acquire(10), Poll::Wait(40));
    assert_eq!(b.poll_acquire(60), Poll::Wait(50));
}

#[test]
fn clock_before_last_refill_counts_as_no_time() {
    let mut b = TokenBucket::new(1, 50, 100);
    assert_eq!(b.poll_acquire(100), Poll::Granted);
    assert_eq!(b.poll_acquire(20), Poll::Wait(50));
}

#[test]
fn capacity_is_max_minus_permits_held() {
    let mut b = TokenBucket::new(3, SECOND, 0);
    assert_eq!(b.poll_acquire(1), Poll::Granted);
    assert_eq!(b.poll_acquire(2), Poll::Granted);
    assert_eq!(b.capacity(), 3 - 2);
    b.release();
    assert_eq!(b.capacity(), 3 - 1);
    assert_eq!(b.poll_acquire(3), Poll::Granted);
    assert_eq!(b.capacity(), 3 - 2);
    b.release();
    b.release();
    assert_eq!(b.capacity(), 3);
}

#[test]
fn burst_released_then_refill_leaves_one_spent() {
    let mut b = TokenBucket::new(2, SECOND, 0);
    for t in [10, 20] {
        assert_eq!(b.poll_acquire(t), Poll::Granted);
        b.release();
    }
    assert_eq!(b.poll_acquire(30), Poll::Wait(SECOND - 30));
    assert_eq!(b.poll_acquire(SECOND), Poll::Granted);
    assert_eq!(b.tokens(), 1);
}
