use fc_block::rate_limiter::{
    bucket_from_config, gcd_u64, BucketUpdate, RateLimiter, RateLimiterConfig, TokenBucket,
    TokenBucketConfig,
};

#[test]
fn gcd_values() {
    assert_eq!(gcd_u64(12, 18), 6);
    assert_eq!(gcd_u64(0, 5), 5);
    assert_eq!(gcd_u64(7, 0), 7);
    assert_eq!(gcd_u64(17, 5), 1);
    assert_eq!(gcd_u64(1000, 1_000_000_000), 1000);
}

#[test]
fn token_bucket_zero_size_or_refill_is_no_bucket() {
    assert!(TokenBucket::new(0, 10, 100).is_none());
    assert!(TokenBucket::new(10, 10, 0).is_none());
}

#[test]
fn token_bucket_refill_overflow_is_no_bucket() {
    assert!(TokenBucket::new(10, 0, u64::MAX).is_none());
    assert!(TokenBucket::new(10, 0, u64::MAX / 1_000_000 + 1).is_none());
    assert!(TokenBucket::new(10, 0, u64::MAX / 1_000_000).is_some());
}

#[test]
fn token_bucket_processed_values() {
    let tb = TokenBucket::new(1000, 5, 1000).unwrap();
    assert_eq!(tb.capacity(), 1000);
    assert_eq!(tb.initial_one_time_burst(), 5);
    assert_eq!(tb.refill_time_ms(), 1000);
    // gcd(1000, 1_000_000_000) = 1000
    assert_eq!(tb.processed_capacity(), 1);
    assert_eq!(tb.processed_refill_time(), 1_000_000);

    let tb = TokenBucket::new(3, 0, 7).unwrap();
    // gcd(3, 7_000_000) = 1
    assert_eq!(tb.processed_capacity(), 3);
    assert_eq!(tb.processed_refill_time(), 7_000_000);
}

#[test]
fn token_bucket_ratio_is_kept() {
    let tb = TokenBucket::new(4096, 0, 250).unwrap();
    let ns: u128 = 250 * 1_000_000;
    assert_eq!(
        tb.processed_capacity() as u128 * ns,
        4096u128 * tb.processed_refill_time() as u128
    );
}

#[test]
fn rate_limiter_new_and_default() {
    let rl = RateLimiter::new(100, 0, 10, 0, 0, 10);
    assert!(rl.bandwidth().is_some());
    assert!(rl.ops().is_none());
    let rl = RateLimiter::default();
    assert!(rl.bandwidth().is_none());
    assert!(rl.ops().is_none());
}

#[test]
fn rate_limiter_update_buckets() {
    let mut rl = RateLimiter::new(100, 0, 10, 200, 0, 20);
    rl.update_buckets(BucketUpdate::Disabled, BucketUpdate::Unchanged);
    assert!(rl.bandwidth().is_none());
    assert_eq!(rl.ops().unwrap().capacity(), 200);

    rl.update_buckets(
        BucketUpdate::Update(TokenBucket::new(300, 1, 30).unwrap()),
        BucketUpdate::Update(TokenBucket::new(400, 2, 40).unwrap()),
    );
    assert_eq!(rl.bandwidth().unwrap().capacity(), 300);
    assert_eq!(rl.ops().unwrap().capacity(), 400);
    assert_eq!(rl.ops().unwrap().refill_time_ms(), 40);

    rl.update_buckets(BucketUpdate::Unchanged, BucketUpdate::Disabled);
    assert_eq!(rl.bandwidth().unwrap().capacity(), 300);
    assert!(rl.ops().is_none());
}

#[test]
fn bucket_config_round_trip() {
    let cfg = TokenBucketConfig { size: 10, one_time_burst: Some(0), refill_time: 5 };
    let tb = bucket_from_config(Some(cfg)).unwrap();
    let back = TokenBucketConfig::from_bucket(&tb);
    // A zero burst is reported as no burst.
    assert_eq!(back, TokenBucketConfig { size: 10, one_time_burst: None, refill_time: 5 });
    let again = TokenBucketConfig::from_bucket(&bucket_from_config(Some(back)).unwrap());
    assert_eq!(again, back);
    assert!(bucket_from_config(None).is_none());
}

#[test]
fn rate_limiter_config_into_option() {
    assert_eq!(RateLimiterConfig { bandwidth: None, ops: None }.into_option(), None);
    let c = RateLimiterConfig {
        bandwidth: None,
        ops: Some(TokenBucketConfig { size: 1, one_time_burst: None, refill_time: 1 }),
    };
    assert_eq!(c.into_option(), Some(c));
}

#[test]
fn rate_limiter_config_through_rate_limiter() {
    let c = RateLimiterConfig {
        bandwidth: Some(TokenBucketConfig { size: 0, one_time_burst: None, refill_time: 1 }),
        ops: Some(TokenBucketConfig { size: 5, one_time_burst: Some(3), refill_time: 2 }),
    };
    let rl = c.to_rate_limiter();
    let back = RateLimiterConfig::from_rate_limiter(&rl);
    assert_eq!(
        back,
        RateLimiterConfig {
            bandwidth: None,
            ops: Some(TokenBucketConfig { size: 5, one_time_burst: Some(3), refill_time: 2 }),
        }
    );
}

#[test]
fn rate_limiter_save_restore() {
    let rl = RateLimiter::new(100, 7, 10, 0, 0, 0);
    let state = rl.save();
    let restored = RateLimiter::restore(&state);
    assert_eq!(restored.bandwidth().unwrap().capacity(), 100);
    assert_eq!(restored.bandwidth().unwrap().initial_one_time_burst(), 7);
    assert_eq!(restored.bandwidth().unwrap().refill_time_ms(), 10);
    assert!(restored.ops().is_none());
    assert_eq!(restored.save(), state);
}
