use dot4ch::limiter::{RateLimit, MAX_PERMITS};

#[test]
fn new_limiter_holds_what_it_was_given() {
    let limiter = RateLimit::new(3, 5, 7);
    assert_eq!(limiter.available_permits(), 3);
    assert_eq!(limiter.limit(), 5);
    assert_eq!(limiter.refill_rate(), 7);
}

#[test]
fn empty_limiter_grants_after_a_tick() {
    let mut limiter = RateLimit::new(0, 0, 1);
    assert!(!limiter.acquire());
    limiter.replenish();
    assert_eq!(limiter.available_permits(), 1);
    assert!(limiter.acquire());
    assert!(!limiter.acquire());
    assert_eq!(limiter.available_permits(), 0);
}

#[test]
fn ceiling_of_zero_never_holds_two_tokens() {
    let mut limiter = RateLimit::new(0, 0, 1);
    for _ in 0..10 {
        limiter.replenish();
        assert_eq!(limiter.available_permits(), 1);
    }
}

#[test]
fn ceiling_of_one_holds_two_tokens_at_most() {
    let mut limiter = RateLimit::new(0, 1, 1);
    limiter.replenish();
    limiter.replenish();
    limiter.replenish();
    assert_eq!(limiter.available_permits(), 2);
}

#[test]
fn a_full_start_is_not_refilled_until_drained() {
    let mut limiter = RateLimit::new(4, 1, 1);
    limiter.replenish();
    assert_eq!(limiter.available_permits(), 4);
    assert!(limiter.acquire());
    assert!(limiter.acquire());
    assert!(limiter.acquire());
    limiter.replenish();
    assert_eq!(limiter.available_permits(), 2);
}

#[test]
fn due_is_one_at_or_below_the_ceiling() {
    let limiter = RateLimit::new(0, 2, 1);
    assert_eq!(limiter.due(0), 1);
    assert_eq!(limiter.due(2), 1);
    assert_eq!(limiter.due(3), 0);
}

#[test]
fn grants_never_outnumber_ticks() {
    let mut limiter = RateLimit::new(0, 0, 1);
    let mut grants = 0;
    let mut ticks = 0;
    for round in 0..50 {
        if round % 3 == 0 {
            limiter.replenish();
            ticks += 1;
        }
        for _ in 0..4 {
            if limiter.acquire() {
                grants += 1;
            }
        }
        assert!(grants <= ticks);
    }
    assert_eq!(grants, ticks);
}

#[test]
fn two_grants_have_a_tick_between_them() {
    let mut limiter = RateLimit::new(1, 0, 1);
    assert!(limiter.acquire());
    assert!(!limiter.acquire());
    assert!(!limiter.acquire());
    limiter.replenish();
    assert!(limiter.acquire());
}

#[test]
fn the_largest_store_is_an_eighth_of_the_address_space() {
    assert_eq!(MAX_PERMITS, usize::MAX >> 3);
    let limiter = RateLimit::new(MAX_PERMITS, MAX_PERMITS - 1, 1);
    assert_eq!(limiter.available_permits(), MAX_PERMITS);
}
