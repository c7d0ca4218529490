//! Token buckets and the rate limiter that holds one bucket for bandwidth and
//! one for operations.

use vstd::prelude::*;
use vstd::arithmetic::div_mod::{lemma_fundamental_div_mod, lemma_mod_multiples_basic};

verus! {

/// Nanoseconds in one millisecond.
pub const NANOSEC_IN_ONE_MILLISEC: u64 = 1_000_000;

/// Greatest common divisor, by Euclid's algorithm.
pub open spec fn gcd(x: nat, y: nat) -> nat
    decreases x,
{
    if x == 0 {
        y
    } else {
        gcd(y % x, x)
    }
}

proof fn lemma_mod_zero_combination(d: int, x: int, r: int, q: int)
    requires
        d > 0,
        x % d == 0,
        r % d == 0,
    ensures
        (q * x + r) % d == 0,
{
    lemma_fundamental_div_mod(x, d);
    lemma_fundamental_div_mod(r, d);
    let k = q * (x / d) + r / d;
    assert(q * x + r == k * d) by (nonlinear_arith)
        requires
            x == d * (x / d) + 0,
            r == d * (r / d) + 0,
            k == q * (x / d) + r / d,
    ;
    lemma_mod_multiples_basic(k, d);
}

/// The greatest common divisor of two numbers, not both zero, is positive
/// and divides both.
pub proof fn lemma_gcd_divides(x: nat, y: nat)
    requires
        x > 0 || y > 0,
    ensures
        gcd(x, y) > 0,
        x % gcd(x, y) == 0,
        y % gcd(x, y) == 0,
    decreases x,
{
    if x == 0 {
        assert(y % y == 0) by {
            lemma_mod_multiples_basic(1, y as int);
        }
    } else {
        let r = y % x;
        lemma_gcd_divides(r, x);
        let g = gcd(x, y);
        assert(g == gcd(r, x));
        lemma_fundamental_div_mod(y as int, x as int);
        lemma_mod_zero_combination(g as int, x as int, r as int, (y / x) as int);
        assert(y as int == (y / x) as int * x as int + r as int) by (nonlinear_arith)
            requires
                y as int == x as int * (y as int / x as int) + (y as int % x as int),
                r == y % x,
        ;
    }
}

/// Every common divisor of two numbers divides their greatest common divisor.
pub proof fn lemma_gcd_greatest(x: nat, y: nat, d: nat)
    requires
        d > 0,
        x % d == 0,
        y % d == 0,
    ensures
        gcd(x, y) % d == 0,
    decreases x,
{
    if x != 0 {
        let r = y % x;
        lemma_fundamental_div_mod(y as int, x as int);
        assert(r as int == (-(y / x) as int) * x as int + y as int) by (nonlinear_arith)
            requires
                y as int == x as int * (y as int / x as int) + (y as int % x as int),
                r == y % x,
        ;
        lemma_mod_zero_combination(d as int, x as int, y as int, -(y / x) as int);
        lemma_gcd_greatest(r, x, d);
    }
}

/// Computes the greatest common divisor of `x` and `y`.
pub fn gcd_u64(x: u64, y: u64) -> (g: u64)
    ensures
        g == gcd(x as nat, y as nat),
{
    let mut a: u64 = x;
    let mut b: u64 = y;
    while a != 0
        invariant
            gcd(a as nat, b as nat) == gcd(x as nat, y as nat),
        decreases a,
    {
        let tmp: u64 = a;
        a = b % tmp;
        b = tmp;
    }
    b
}


/// What a token bucket holds, as plain numbers.
pub struct TokenBucketView {
    /// Total number of tokens the bucket can hold.
    pub size: u64,
    /// Tokens granted once, on top of `size`, at creation.
    pub one_time_burst: u64,
    /// Milliseconds in which an empty bucket refills to `size`.
    pub refill_time: u64,
    /// `size` divided by the greatest common divisor of `size` and the refill
    /// time in nanoseconds.
    pub processed_capacity: u64,
    /// The refill time in nanoseconds divided by the same divisor.
    pub processed_refill_time: u64,
}

/// A token bucket: `size` tokens that refill completely within `refill_time`
/// milliseconds, plus a one-time burst.
pub struct TokenBucket {
    size: u64,
    one_time_burst: u64,
    refill_time: u64,
    processed_capacity: u64,
    processed_refill_time: u64,
}

impl View for TokenBucket {
    type V = TokenBucketView;

    closed spec fn view(&self) -> TokenBucketView {
        TokenBucketView {
            size: self.size,
            one_time_burst: self.one_time_burst,
            refill_time: self.refill_time,
            processed_capacity: self.processed_capacity,
            processed_refill_time: self.processed_refill_time,
        }
    }
}

/// Refill time in nanoseconds, for a refill time in milliseconds.
pub open spec fn refill_time_ns(refill_time_ms: u64) -> int {
    refill_time_ms * NANOSEC_IN_ONE_MILLISEC
}

/// The bucket that `TokenBucket::new` builds from its arguments: none when
/// the size or the refill time is zero, or when the refill time does not fit
/// in `u64` nanoseconds; otherwise the bucket whose processed capacity and
/// refill time are reduced by their greatest common divisor.
pub open spec fn spec_token_bucket(size: u64, one_time_burst: u64, refill_time: u64) -> Option<
    TokenBucketView,
> {
    if size == 0 || refill_time == 0 || refill_time_ns(refill_time) > u64::MAX {
        None
    } else {
        let ns = refill_time_ns(refill_time) as nat;
        let g = gcd(size as nat, ns);
        Some(
            TokenBucketView {
                size,
                one_time_burst,
                refill_time,
                processed_capacity: (size as nat / g) as u64,
                processed_refill_time: (ns / g) as u64,
            },
        )
    }
}

/// The views of an optional bucket.
pub open spec fn option_bucket_view(b: Option<TokenBucket>) -> Option<TokenBucketView> {
    match b {
        Some(tb) => Some(tb@),
        None => None,
    }
}

/// A bucket is valid when it is the bucket `TokenBucket::new` builds from
/// its size, burst and refill time.
pub open spec fn spec_valid_bucket(b: TokenBucketView) -> bool {
    spec_token_bucket(b.size, b.one_time_burst, b.refill_time) == Some(b)
}

impl TokenBucket {
    #[verifier::type_invariant]
    spec fn inv(self) -> bool {
        spec_valid_bucket(self@)
    }

    /// Creates a token bucket of `size` tokens that refills completely in
    /// `complete_refill_time_ms` milliseconds and grants `one_time_burst`
    /// extra tokens once. A size or refill time of zero means no limit, and
    /// gives no bucket.
    pub fn new(size: u64, one_time_burst: u64, complete_refill_time_ms: u64) -> (r: Option<Self>)
        ensures
            option_bucket_view(r) == spec_token_bucket(size, one_time_burst, complete_refill_time_ms),
            r matches Some(tb) ==> {
                let ns = refill_time_ns(complete_refill_time_ms);
                let g = gcd(size as nat, ns as nat);
                &&& g > 0
                &&& tb@.processed_capacity * g == size
                &&& tb@.processed_refill_time * g == ns
                &&& tb@.processed_capacity * ns == size * tb@.processed_refill_time
            },
    {
        if size == 0 || complete_refill_time_ms == 0 {
            return None;
        }
        let ns = match complete_refill_time_ms.checked_mul(NANOSEC_IN_ONE_MILLISEC) {
            Some(ns) => ns,
            None => return None,
        };
        let common_factor = gcd_u64(size, ns);
        proof {
            lemma_gcd_divides(size as nat, ns as nat);
        }
        let processed_capacity = size / common_factor;
        let processed_refill_time = ns / common_factor;
        proof {
            let g = common_factor as int;
            lemma_fundamental_div_mod(size as int, g);
            lemma_fundamental_div_mod(ns as int, g);
            assert(size == g * processed_capacity);
            assert(ns == g * processed_refill_time);
            assert(processed_capacity * g == size) by (nonlinear_arith)
                requires
                    size == g * processed_capacity,
            ;
            assert(processed_refill_time * g == ns) by (nonlinear_arith)
                requires
                    ns == g * processed_refill_time,
            ;
            assert(processed_capacity * ns == size * processed_refill_time) by (nonlinear_arith)
                requires
                    size == g * processed_capacity,
                    ns == g * processed_refill_time,
            ;
        }
        Some(
            TokenBucket {
                size,
                one_time_burst,
                refill_time: complete_refill_time_ms,
                processed_capacity,
                processed_refill_time,
            },
        )
    }

    /// The number of tokens the bucket holds when full.
    pub fn capacity(&self) -> (r: u64)
        ensures
            r == self@.size,
    {
        self.size
    }

    /// The one-time burst the bucket was created with.
    pub fn initial_one_time_burst(&self) -> (r: u64)
        ensures
            r == self@.one_time_burst,
    {
        self.one_time_burst
    }

    /// The time, in milliseconds, in which an empty bucket refills.
    pub fn refill_time_ms(&self) -> (r: u64)
        ensures
            r == self@.refill_time,
    {
        self.refill_time
    }

    /// The size reduced by the greatest common divisor of size and refill
    /// time in nanoseconds.
    pub fn processed_capacity(&self) -> (r: u64)
        ensures
            r == self@.processed_capacity,
    {
        self.processed_capacity
    }

    /// The refill time in nanoseconds reduced by the same divisor.
    pub fn processed_refill_time(&self) -> (r: u64)
        ensures
            r == self@.processed_refill_time,
    {
        self.processed_refill_time
    }

    /// Copies the bucket.
    pub fn duplicate(&self) -> (r: Self)
        ensures
            r@ == self@,
    {
        proof {
            use_type_invariant(self);
        }
        TokenBucket {
            size: self.size,
            one_time_burst: self.one_time_burst,
            refill_time: self.refill_time,
            processed_capacity: self.processed_capacity,
            processed_refill_time: self.processed_refill_time,
        }
    }
}


/// How `RateLimiter::update_buckets` changes one bucket.
pub enum BucketUpdate {
    /// Leave the bucket as it is.
    Unchanged,
    /// Remove the bucket: no more limit.
    Disabled,
    /// Replace the bucket with this one.
    Update(TokenBucket),
}

/// The bucket that results from applying `update` to `current`.
pub open spec fn apply_bucket_update(update: BucketUpdate, current: Option<TokenBucketView>) -> Option<
    TokenBucketView,
> {
    match update {
        BucketUpdate::Unchanged => current,
        BucketUpdate::Disabled => None,
        BucketUpdate::Update(tb) => Some(tb@),
    }
}

/// What a rate limiter holds: an optional bucket for bandwidth (bytes) and
/// one for operations.
pub struct RateLimiterView {
    pub bandwidth: Option<TokenBucketView>,
    pub ops: Option<TokenBucketView>,
}

/// A rate limiter with an optional token bucket for bandwidth and one for
/// operations; a missing bucket does not limit.
pub struct RateLimiter {
    bandwidth: Option<TokenBucket>,
    ops: Option<TokenBucket>,
}

impl View for RateLimiter {
    type V = RateLimiterView;

    closed spec fn view(&self) -> RateLimiterView {
        RateLimiterView {
            bandwidth: option_bucket_view(self.bandwidth),
            ops: option_bucket_view(self.ops),
        }
    }
}

fn duplicate_bucket(b: &Option<TokenBucket>) -> (r: Option<TokenBucket>)
    ensures
        option_bucket_view(r) == option_bucket_view(*b),
{
    match b {
        Some(tb) => Some(tb.duplicate()),
        None => None,
    }
}

impl RateLimiter {
    /// Creates a rate limiter from the parameters of its two buckets; a
    /// bucket whose size or refill time is zero is left out.
    pub fn new(
        bytes_total_capacity: u64,
        bytes_one_time_burst: u64,
        bytes_complete_refill_time_ms: u64,
        ops_total_capacity: u64,
        ops_one_time_burst: u64,
        ops_complete_refill_time_ms: u64,
    ) -> (r: Self)
        ensures
            r@.bandwidth == spec_token_bucket(
                bytes_total_capacity,
                bytes_one_time_burst,
                bytes_complete_refill_time_ms,
            ),
            r@.ops == spec_token_bucket(
                ops_total_capacity,
                ops_one_time_burst,
                ops_complete_refill_time_ms,
            ),
    {
        let bandwidth = TokenBucket::new(
            bytes_total_capacity,
            bytes_one_time_burst,
            bytes_complete_refill_time_ms,
        );
        let ops = TokenBucket::new(ops_total_capacity, ops_one_time_burst, ops_complete_refill_time_ms);
        RateLimiter { bandwidth, ops }
    }

    /// Changes the bandwidth bucket by `bytes` and the operations bucket by
    /// `ops`.
    pub fn update_buckets(&mut self, bytes: BucketUpdate, ops: BucketUpdate)
        ensures
            final(self)@.bandwidth == apply_bucket_update(bytes, old(self)@.bandwidth),
            final(self)@.ops == apply_bucket_update(ops, old(self)@.ops),
    {
        match bytes {
            BucketUpdate::Disabled => self.bandwidth = None,
            BucketUpdate::Update(tb) => self.bandwidth = Some(tb),
            BucketUpdate::Unchanged => {},
        }
        match ops {
            BucketUpdate::Disabled => self.ops = None,
            BucketUpdate::Update(tb) => self.ops = Some(tb),
            BucketUpdate::Unchanged => {},
        }
    }

    /// The bandwidth bucket, if any.
    pub fn bandwidth(&self) -> (r: Option<&TokenBucket>)
        ensures
            r matches Some(tb) ==> self@.bandwidth == Some(tb@),
            r is None ==> self@.bandwidth is None,
    {
        match &self.bandwidth {
            Some(tb) => Some(tb),
            None => None,
        }
    }

    /// The operations bucket, if any.
    pub fn ops(&self) -> (r: Option<&TokenBucket>)
        ensures
            r matches Some(tb) ==> self@.ops == Some(tb@),
            r is None ==> self@.ops is None,
    {
        match &self.ops {
            Some(tb) => Some(tb),
            None => None,
        }
    }

    /// Copies the rate limiter.
    pub fn duplicate(&self) -> (r: Self)
        ensures
            r@ == self@,
    {
        RateLimiter { bandwidth: duplicate_bucket(&self.bandwidth), ops: duplicate_bucket(&self.ops) }
    }
}

impl Default for RateLimiter {
    /// A rate limiter that does not limit.
    fn default() -> (r: Self)
        ensures
            r@.bandwidth is None,
            r@.ops is None,
    {
        RateLimiter { bandwidth: None, ops: None }
    }
}

/// The configuration of one token bucket.
#[derive(Clone, Copy, Debug, Default, PartialEq, Eq)]
pub struct TokenBucketConfig {
    /// Bucket size in tokens.
    pub size: u64,
    /// Initial burst, in tokens.
    pub one_time_burst: Option<u64>,
    /// Milliseconds for the bucket to refill.
    pub refill_time: u64,
}

/// The configuration of a rate limiter.
#[derive(Clone, Copy, Debug, Default, PartialEq, Eq)]
pub struct RateLimiterConfig {
    /// Bandwidth (bytes) bucket.
    pub bandwidth: Option<TokenBucketConfig>,
    /// Operations bucket.
    pub ops: Option<TokenBucketConfig>,
}

/// The bucket that a bucket configuration gives: a missing configuration
/// counts as size zero, which gives none.
pub open spec fn spec_bucket_from_config(c: Option<TokenBucketConfig>) -> Option<TokenBucketView> {
    match c {
        None => None,
        Some(c) => spec_token_bucket(
            c.size,
            match c.one_time_burst {
                Some(b) => b,
                None => 0,
            },
            c.refill_time,
        ),
    }
}

/// The configuration that describes a bucket; a zero burst is written as no
/// burst.
pub open spec fn spec_config_of_bucket(b: TokenBucketView) -> TokenBucketConfig {
    TokenBucketConfig {
        size: b.size,
        one_time_burst: if b.one_time_burst == 0 {
            None
        } else {
            Some(b.one_time_burst)
        },
        refill_time: b.refill_time,
    }
}

pub open spec fn spec_option_config_of_bucket(b: Option<TokenBucketView>) -> Option<
    TokenBucketConfig,
> {
    match b {
        Some(b) => Some(spec_config_of_bucket(b)),
        None => None,
    }
}

/// The rate limiter that a configuration gives.
pub open spec fn spec_rate_limiter_from_config(c: RateLimiterConfig) -> RateLimiterView {
    RateLimiterView {
        bandwidth: spec_bucket_from_config(c.bandwidth),
        ops: spec_bucket_from_config(c.ops),
    }
}

/// The configuration that describes a rate limiter.
pub open spec fn spec_config_of_rate_limiter(r: RateLimiterView) -> RateLimiterConfig {
    RateLimiterConfig {
        bandwidth: spec_option_config_of_bucket(r.bandwidth),
        ops: spec_option_config_of_bucket(r.ops),
    }
}

/// A configuration that limits nothing is written as no configuration.
pub open spec fn spec_into_option(c: RateLimiterConfig) -> Option<RateLimiterConfig> {
    if c.bandwidth is Some || c.ops is Some {
        Some(c)
    } else {
        None
    }
}

/// The optional rate limiter configuration that a device reports after it
/// was configured with `c`.
pub open spec fn spec_normalize_rate_limiter_config(c: Option<RateLimiterConfig>) -> Option<
    RateLimiterConfig,
> {
    match c {
        None => None,
        Some(c) => spec_into_option(spec_config_of_rate_limiter(spec_rate_limiter_from_config(c))),
    }
}

impl TokenBucketConfig {
    /// The configuration that describes a bucket.
    pub fn from_bucket(tb: &TokenBucket) -> (r: Self)
        ensures
            r == spec_config_of_bucket(tb@),
    {
        let one_time_burst = match tb.initial_one_time_burst() {
            0 => None,
            v => Some(v),
        };
        TokenBucketConfig { size: tb.capacity(), one_time_burst, refill_time: tb.refill_time_ms() }
    }
}

/// The bucket that an optional bucket configuration gives.
pub fn bucket_from_config(c: Option<TokenBucketConfig>) -> (r: Option<TokenBucket>)
    ensures
        option_bucket_view(r) == spec_bucket_from_config(c),
{
    match c {
        None => None,
        Some(c) => {
            let burst = match c.one_time_burst {
                Some(b) => b,
                None => 0,
            };
            TokenBucket::new(c.size, burst, c.refill_time)
        },
    }
}

fn option_config_of_bucket(b: Option<&TokenBucket>) -> (r: Option<TokenBucketConfig>)
    ensures
        r == spec_option_config_of_bucket(
            match b {
                Some(tb) => Some(tb@),
                None => None,
            },
        ),
{
    match b {
        Some(tb) => Some(TokenBucketConfig::from_bucket(tb)),
        None => None,
    }
}

impl RateLimiterConfig {
    /// The configuration that describes a rate limiter.
    pub fn from_rate_limiter(rl: &RateLimiter) -> (r: Self)
        ensures
            r == spec_config_of_rate_limiter(rl@),
    {
        RateLimiterConfig {
            bandwidth: option_config_of_bucket(rl.bandwidth()),
            ops: option_config_of_bucket(rl.ops()),
        }
    }

    /// `Some(self)` when a bucket is configured, `None` otherwise.
    pub fn into_option(self) -> (r: Option<Self>)
        ensures
            r == spec_into_option(self),
    {
        if self.bandwidth.is_some() || self.ops.is_some() {
            Some(self)
        } else {
            None
        }
    }

    /// The rate limiter this configuration describes.
    pub fn to_rate_limiter(&self) -> (r: RateLimiter)
        ensures
            r@ == spec_rate_limiter_from_config(*self),
    {
        RateLimiter { bandwidth: bucket_from_config(self.bandwidth), ops: bucket_from_config(self.ops) }
    }
}

/// The saved state of a token bucket.
#[derive(Clone, Copy, Debug, PartialEq, Eq)]
pub struct TokenBucketState {
    pub size: u64,
    pub one_time_burst: u64,
    pub refill_time: u64,
}

/// The saved state of a rate limiter.
#[derive(Clone, Copy, Debug, PartialEq, Eq)]
pub struct RateLimiterState {
    pub ops: Option<TokenBucketState>,
    pub bandwidth: Option<TokenBucketState>,
}

/// The state saved for a bucket.
pub open spec fn spec_bucket_state_of(b: TokenBucketView) -> TokenBucketState {
    TokenBucketState { size: b.size, one_time_burst: b.one_time_burst, refill_time: b.refill_time }
}

pub open spec fn spec_option_bucket_state_of(b: Option<TokenBucketView>) -> Option<TokenBucketState> {
    match b {
        Some(b) => Some(spec_bucket_state_of(b)),
        None => None,
    }
}

/// The bucket restored from a saved state: none when no bucket was saved or
/// the saved one limits nothing.
pub open spec fn spec_bucket_from_state(s: Option<TokenBucketState>) -> Option<TokenBucketView> {
    match s {
        Some(s) => spec_token_bucket(s.size, s.one_time_burst, s.refill_time),
        None => None,
    }
}

/// The state saved for a rate limiter.
pub open spec fn spec_rate_limiter_state_of(r: RateLimiterView) -> RateLimiterState {
    RateLimiterState {
        ops: spec_option_bucket_state_of(r.ops),
        bandwidth: spec_option_bucket_state_of(r.bandwidth),
    }
}

/// The rate limiter restored from a saved state.
pub open spec fn spec_rate_limiter_from_state(s: RateLimiterState) -> RateLimiterView {
    RateLimiterView {
        bandwidth: spec_bucket_from_state(s.bandwidth),
        ops: spec_bucket_from_state(s.ops),
    }
}

/// Both buckets of a rate limiter, when present, are valid.
pub open spec fn spec_valid_rate_limiter(r: RateLimiterView) -> bool {
    &&& (r.bandwidth matches Some(b) ==> spec_valid_bucket(b))
    &&& (r.ops matches Some(b) ==> spec_valid_bucket(b))
}

impl TokenBucket {
    /// The state to save for this bucket.
    pub fn save(&self) -> (r: TokenBucketState)
        ensures
            r == spec_bucket_state_of(self@),
    {
        TokenBucketState {
            size: self.size,
            one_time_burst: self.one_time_burst,
            refill_time: self.refill_time,
        }
    }

    /// The bucket a saved state describes, if it limits anything.
    pub fn restore(state: &TokenBucketState) -> (r: Option<TokenBucket>)
        ensures
            option_bucket_view(r) == spec_token_bucket(state.size, state.one_time_burst, state.refill_time),
    {
        TokenBucket::new(state.size, state.one_time_burst, state.refill_time)
    }
}

fn save_bucket(b: Option<&TokenBucket>) -> (r: Option<TokenBucketState>)
    ensures
        r == spec_option_bucket_state_of(
            match b {
                Some(tb) => Some(tb@),
                None => None,
            },
        ),
{
    match b {
        Some(tb) => Some(tb.save()),
        None => None,
    }
}

fn restore_bucket(s: &Option<TokenBucketState>) -> (r: Option<TokenBucket>)
    ensures
        option_bucket_view(r) == spec_bucket_from_state(*s),
{
    match s {
        Some(s) => TokenBucket::restore(s),
        None => None,
    }
}

impl RateLimiter {
    /// The state to save for this rate limiter.
    pub fn save(&self) -> (r: RateLimiterState)
        ensures
            r == spec_rate_limiter_state_of(self@),
            spec_valid_rate_limiter(self@),
    {
        if let Some(tb) = &self.bandwidth {
            proof {
                use_type_invariant(tb);
            }
        }
        if let Some(tb) = &self.ops {
            proof {
                use_type_invariant(tb);
            }
        }
        RateLimiterState { ops: save_bucket(self.ops()), bandwidth: save_bucket(self.bandwidth()) }
    }

    /// The rate limiter a saved state describes.
    pub fn restore(state: &RateLimiterState) -> (r: RateLimiter)
        ensures
            r@ == spec_rate_limiter_from_state(*state),
    {
        RateLimiter { bandwidth: restore_bucket(&state.bandwidth), ops: restore_bucket(&state.ops) }
    }
}

/// Restoring the saved state of a rate limiter gives it back.
pub proof fn lemma_rate_limiter_save_restore(r: RateLimiterView)
    requires
        spec_valid_rate_limiter(r),
    ensures
        spec_rate_limiter_from_state(spec_rate_limiter_state_of(r)) == r,
{
}

/// Reading back the configuration of a bucket built from a configuration,
/// and building a bucket from that, gives the same bucket.
pub proof fn lemma_bucket_config_round_trip(c: Option<TokenBucketConfig>)
    ensures
        spec_bucket_from_config(spec_option_config_of_bucket(spec_bucket_from_config(c)))
            == spec_bucket_from_config(c),
{
}

/// The rate limiter configuration a device reports is stable: configuring a
/// device with what it reports makes it report the same again.
pub proof fn lemma_normalize_rate_limiter_config_idempotent(c: Option<RateLimiterConfig>)
    ensures
        spec_normalize_rate_limiter_config(spec_normalize_rate_limiter_config(c))
            == spec_normalize_rate_limiter_config(c),
{
    if let Some(c0) = c {
        lemma_bucket_config_round_trip(c0.bandwidth);
        lemma_bucket_config_round_trip(c0.ops);
    }
}

/// A configuration as a device reports it back: a burst of zero is written
/// as no burst.
pub open spec fn spec_reported_bucket_config(c: TokenBucketConfig) -> TokenBucketConfig {
    TokenBucketConfig {
        size: c.size,
        one_time_burst: if c.one_time_burst == Some(0u64) {
            None
        } else {
            c.one_time_burst
        },
        refill_time: c.refill_time,
    }
}

/// The size and refill time of a bucket configuration are positive, and the
/// refill time fits in 64-bit nanoseconds.
pub open spec fn spec_limits(c: TokenBucketConfig) -> bool {
    c.size > 0 && c.refill_time > 0 && c.refill_time * 1_000_000 <= u64::MAX
}

/// A token bucket exists exactly when its size and refill time are positive
/// and the refill time fits in 64-bit nanoseconds, whatever its one-time
/// burst, smaller or larger than its size. It then keeps the size, burst
/// and refill time it was given, and refills at the same rate: its processed
/// capacity over its processed refill time is its size over its refill time
/// in nanoseconds, both positive and no larger than those.
pub proof fn lemma_token_bucket_exists(size: u64, one_time_burst: u64, refill_time: u64)
    ensures
        (spec_token_bucket(size, one_time_burst, refill_time) is Some) == (size > 0 && refill_time
            > 0 && refill_time * 1_000_000 <= u64::MAX),
        spec_token_bucket(size, one_time_burst, refill_time) matches Some(b) ==> {
            &&& b.size == size
            &&& b.one_time_burst == one_time_burst
            &&& b.refill_time == refill_time
            &&& 0 < b.processed_capacity <= size
            &&& 0 < b.processed_refill_time <= refill_time * 1_000_000
            &&& b.processed_capacity * (refill_time * 1_000_000) == size * b.processed_refill_time
        },
{
    if size > 0 && refill_time > 0 && refill_time * 1_000_000 <= u64::MAX {
        let ns: nat = (refill_time * 1_000_000) as nat;
        let g = gcd(size as nat, ns);
        lemma_gcd_divides(size as nat, ns);
        lemma_fundamental_div_mod(size as int, g as int);
        lemma_fundamental_div_mod(ns as int, g as int);
        let pc: int = (size as nat / g) as int;
        let pr: int = (ns / g) as int;
        assert(size == g * pc);
        assert(ns == g * pr);
        assert(0 < pc <= size && 0 < pr <= ns && pc * ns == size * pr) by (nonlinear_arith)
            requires
                size == g * pc,
                ns == g * pr,
                g > 0,
                size > 0,
                ns > 0,
        ;
    }
}

/// The rate a token bucket refills at is kept in lowest terms: its processed
/// capacity and processed refill time have no common divisor but one.
pub proof fn lemma_token_bucket_reduced(size: u64, one_time_burst: u64, refill_time: u64, d: nat)
    requires
        d > 0,
        spec_token_bucket(size, one_time_burst, refill_time) matches Some(b) && (b.processed_capacity
            as nat) % d == 0 && (b.processed_refill_time as nat) % d == 0,
    ensures
        d == 1,
{
    let b = spec_token_bucket(size, one_time_burst, refill_time)->0;
    let ns: nat = (refill_time * 1_000_000) as nat;
    let g = gcd(size as nat, ns);
    lemma_gcd_divides(size as nat, ns);
    lemma_fundamental_div_mod(size as int, g as int);
    lemma_fundamental_div_mod(ns as int, g as int);
    let pc: int = (size as nat / g) as int;
    let pr: int = (ns / g) as int;
    assert(size == g * pc);
    assert(ns == g * pr);
    assert(0 < pc && pc <= size) by (nonlinear_arith)
        requires
            size == g * pc,
            g > 0,
            size > 0,
    ;
    assert(b.processed_capacity == pc);
    assert(b.processed_refill_time == pr);
    lemma_fundamental_div_mod(pc, d as int);
    lemma_fundamental_div_mod(pr, d as int);
    let dg: int = (d * g) as int;
    assert(size as int == dg * (pc / d as int)) by (nonlinear_arith)
        requires
            size == g * pc,
            pc == d * (pc / d as int) + 0,
            dg == d * g,
    ;
    assert(ns as int == dg * (pr / d as int)) by (nonlinear_arith)
        requires
            ns == g * pr,
            pr == d * (pr / d as int) + 0,
            dg == d * g,
    ;
    assert(dg > 0) by (nonlinear_arith)
        requires
            dg == d * g,
            d > 0,
            g > 0,
    ;
    vstd::arithmetic::div_mod::lemma_mod_multiples_basic(pc / d as int, dg);
    vstd::arithmetic::div_mod::lemma_mod_multiples_basic(pr / d as int, dg);
    assert((pc / d as int) * dg == size as int) by (nonlinear_arith)
        requires
            size as int == dg * (pc / d as int),
    ;
    assert((pr / d as int) * dg == ns as int) by (nonlinear_arith)
        requires
            ns as int == dg * (pr / d as int),
    ;
    lemma_gcd_greatest(size as nat, ns, dg as nat);
    lemma_fundamental_div_mod(g as int, dg);
    vstd::arithmetic::div_mod::lemma_mod_bound(g as int, dg);
    assert(d == 1) by (nonlinear_arith)
        requires
            g as int == dg * (g as int / dg) + 0,
            dg == d * g,
            g > 0,
            d > 0,
    ;
}

/// The bucket a configuration gives exists exactly when the configured size
/// and refill time are positive and the refill time fits in 64-bit
/// nanoseconds, whatever the one-time burst, smaller or larger than the
/// size. It holds the configured size, refill time and burst (none counts as
/// zero), and reads back as the configuration it came from. No
/// configuration gives no bucket.
pub proof fn lemma_bucket_from_config_exists(c: Option<TokenBucketConfig>)
    ensures
        c is None ==> spec_bucket_from_config(c) is None,
        c matches Some(k) ==> {
            &&& (spec_bucket_from_config(c) is Some) == spec_limits(k)
            &&& spec_bucket_from_config(c) matches Some(b) ==> {
                &&& b.size == k.size
                &&& b.refill_time == k.refill_time
                &&& k.one_time_burst matches Some(x) ==> b.one_time_burst == x
                &&& k.one_time_burst is None ==> b.one_time_burst == 0
            }
            &&& spec_limits(k) ==> spec_option_config_of_bucket(spec_bucket_from_config(c)) == Some(
                spec_reported_bucket_config(k),
            )
        },
{
    if let Some(k) = c {
        let burst: u64 = match k.one_time_burst {
            Some(x) => x,
            None => 0,
        };
        lemma_token_bucket_exists(k.size, burst, k.refill_time);
    }
}

} // verus!
