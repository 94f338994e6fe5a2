//! The keyed token-bucket store. The buckets themselves are kept by the
//! `governor` crate; this module holds the handle and the plain-value
//! decisions that the rest of the library works on.

use governor::clock::{Clock, DefaultClock, FakeRelativeClock};
use governor::middleware::StateInformationMiddleware;
use governor::state::keyed::DefaultKeyedStateStore;
use governor::{Quota, RateLimiter};
use std::hash::Hash;
use std::num::NonZeroU32;
use std::sync::Arc;
use std::time::Duration;
use vstd::prelude::*;

verus! {

/// Nanoseconds in one second.
pub const NANOS_PER_SEC: u64 = 1_000_000_000;

/// The longest time, in nanoseconds, that a quota may take to replenish a
/// full burst and one token more. Bucket times are 64-bit nanosecond counts;
/// this bound keeps them from overflowing for centuries of running time.
pub const MAX_WINDOW_NANOS: u128 = 9_223_372_036_854_775_807;

/// Whether a period in nanoseconds and a burst size make a usable quota:
/// neither is zero, and the window stays within [`MAX_WINDOW_NANOS`].
pub open spec fn valid_quota(period_nanos: u128, burst_size: u32) -> bool {
    &&& period_nanos != 0
    &&& burst_size != 0
    &&& period_nanos * (burst_size + 1) <= MAX_WINDOW_NANOS
}

/// The latest reading, in nanoseconds, that a [`ManualClock`] can show.
/// With a window within [`MAX_WINDOW_NANOS`] on top, bucket times stay
/// within 64 bits.
pub const MAX_CLOCK_NANOS: u64 = 9_223_372_036_854_775_808;

/// A bucket store on the system's monotonic clock. Handles made by
/// `Arc::clone` draw from the same buckets.
#[verifier::external_body]
#[verifier::reject_recursive_types(K)]
pub struct SystemBuckets<K: Clone + Hash + Eq> {
    inner: Arc<RateLimiter<K, DefaultKeyedStateStore<K>, DefaultClock, StateInformationMiddleware>>,
}

/// A bucket store on a clock that is advanced by hand, with a handle on
/// that clock for reading the time of a decision.
#[verifier::external_body]
#[verifier::reject_recursive_types(K)]
pub struct ManualBuckets<K: Clone + Hash + Eq> {
    inner: Arc<
        RateLimiter<K, DefaultKeyedStateStore<K>, FakeRelativeClock, StateInformationMiddleware>,
    >,
    clock: FakeRelativeClock,
}

/// `governor::clock::FakeRelativeClock`, a counter of nanoseconds that
/// moves only when it is advanced.
#[verifier::external_type_specification]
#[verifier::external_body]
pub struct ExFakeRelativeClock(FakeRelativeClock);

/// What a `governor::clock::FakeRelativeClock` shows: the nanoseconds that
/// it has been advanced by since it was made. The library reads and advances
/// a clock through the one handle that a [`ManualClock`] owns; the handles
/// inside bucket stores are read by the stores alone.
pub uninterp spec fn clock_reading(clock: FakeRelativeClock) -> nat;

/// A clock of its own, by `FakeRelativeClock::default`: it shows zero.
#[verifier::external_body]
fn new_clock() -> (clock: FakeRelativeClock)
    ensures
        clock_reading(clock) == 0,
{
    FakeRelativeClock::default()
}

/// Reads the clock by `Clock::now`, which loads the counter that `advance`
/// adds to.
#[verifier::external_body]
fn read_clock(clock: &FakeRelativeClock) -> (nanos: u64)
    ensures
        nanos == clock_reading(*clock),
{
    clock.now().as_u64()
}

/// Moves the clock on by `FakeRelativeClock::advance`, which adds `nanos`
/// to its counter; the bound keeps the addition within 64 bits, so that the
/// call does not panic.
#[verifier::external_body]
fn advance_clock(clock: &mut FakeRelativeClock, nanos: u64)
    requires
        clock_reading(*old(clock)) + nanos <= u64::MAX,
    ensures
        clock_reading(*final(clock)) == clock_reading(*old(clock)) + nanos,
    no_unwind
{
    clock.advance(Duration::from_nanos(nanos));
}

/// Makes an empty bucket store on the system clock by
/// `governor::RateLimiter::keyed`, for the quota of
/// `governor::Quota::with_period` and `allow_burst`. Nothing is claimed of
/// the store. The bounds keep the calls from panicking: the period and the
/// burst size are not zero, and the bucket arithmetic, done in 64-bit
/// nanoseconds, has room.
#[verifier::external_body]
fn system_buckets<K: Clone + Hash + Eq>(period_nanos: u64, burst_size: u32) -> (buckets:
    SystemBuckets<K>)
    requires
        valid_quota(period_nanos as u128, burst_size),
{
    let quota = Quota::with_period(Duration::from_nanos(period_nanos)).unwrap().allow_burst(
        NonZeroU32::new(burst_size).unwrap(),
    );
    SystemBuckets { inner: Arc::new(RateLimiter::keyed(quota).with_middleware()) }
}

/// Makes an empty bucket store by `governor::RateLimiter::new`, on a handle
/// of `clock`, for the same quota and under the same bounds as
/// [`system_buckets`]. Nothing is claimed of the store.
#[verifier::external_body]
fn manual_buckets<K: Clone + Hash + Eq>(
    clock: &FakeRelativeClock,
    period_nanos: u64,
    burst_size: u32,
) -> (buckets: ManualBuckets<K>)
    requires
        valid_quota(period_nanos as u128, burst_size),
{
    let quota = Quota::with_period(Duration::from_nanos(period_nanos)).unwrap().allow_burst(
        NonZeroU32::new(burst_size).unwrap(),
    );
    let limiter = RateLimiter::new(quota, DefaultKeyedStateStore::default(), clock);
    ManualBuckets { inner: Arc::new(limiter), clock: clock.clone() }
}

/// Another handle on the same store, by `Arc::clone`.
#[verifier::external_body]
fn share_system<K: Clone + Hash + Eq>(buckets: &SystemBuckets<K>) -> (shared: SystemBuckets<K>) {
    SystemBuckets { inner: Arc::clone(&buckets.inner) }
}

/// Another handle on the same store and the same clock, by `Arc::clone`.
#[verifier::external_body]
fn share_manual<K: Clone + Hash + Eq>(buckets: &ManualBuckets<K>) -> (shared: ManualBuckets<K>) {
    ManualBuckets { inner: Arc::clone(&buckets.inner), clock: buckets.clock.clone() }
}

/// Checks `key` against its bucket by `governor::RateLimiter::check_key` and
/// hands the outcome on as plain values: of a positive one the remaining
/// burst capacity; of a negative one the wait from now, read off
/// `governor::clock::DefaultClock`, in seconds and nanoseconds. The outcome
/// depends on the time and on the checks made before; all that is claimed is
/// that the nanoseconds stay below a second, as `Duration::subsec_nanos`
/// documents.
#[verifier::external_body]
fn check_system<K: Clone + Hash + Eq>(buckets: &SystemBuckets<K>, key: &K) -> (outcome: Result<
    u32,
    (u64, u32),
>)
    ensures
        outcome matches Err((_, subsec_nanos)) ==> subsec_nanos < NANOS_PER_SEC,
{
    match buckets.inner.check_key(key) {
        Ok(snapshot) => Ok(snapshot.remaining_burst_capacity()),
        Err(negative) => {
            let wait = negative.wait_time_from(DefaultClock::default().now());
            Err((wait.as_secs(), wait.subsec_nanos()))
        },
    }
}

/// As [`check_system`], with the wait measured from what the store's own
/// clock shows. The outcome depends on the checks made and the advances of
/// the clock before. The store's clock is a handle on a [`ManualClock`],
/// which never passes [`MAX_CLOCK_NANOS`]; with the quota's bound this keeps
/// the bucket arithmetic within 64 bits.
#[verifier::external_body]
fn check_manual<K: Clone + Hash + Eq>(buckets: &ManualBuckets<K>, key: &K) -> (outcome: Result<
    u32,
    (u64, u32),
>)
    ensures
        outcome matches Err((_, subsec_nanos)) ==> subsec_nanos < NANOS_PER_SEC,
{
    match buckets.inner.check_key(key) {
        Ok(snapshot) => Ok(snapshot.remaining_burst_capacity()),
        Err(negative) => {
            let wait = negative.wait_time_from(buckets.clock.now());
            Err((wait.as_secs(), wait.subsec_nanos()))
        },
    }
}

/// A clock that stands still until it is advanced: the time source of a
/// limiter whose decisions are to be reproducible.
pub struct ManualClock {
    clock: FakeRelativeClock,
}

impl ManualClock {
    #[verifier::type_invariant]
    closed spec fn within_range(self) -> bool {
        clock_reading(self.clock) <= MAX_CLOCK_NANOS
    }

    /// The nanoseconds that the clock shows.
    pub closed spec fn nanos(self) -> nat {
        clock_reading(self.clock)
    }

    /// A clock that shows zero.
    pub fn new() -> (clock: Self)
        ensures
            clock.nanos() == 0,
    {
        ManualClock { clock: new_clock() }
    }

    /// The nanoseconds that the clock shows.
    pub fn now(&self) -> (nanos: u64)
        ensures
            nanos == self.nanos(),
            nanos <= MAX_CLOCK_NANOS,
    {
        proof {
            use_type_invariant(self);
        }
        read_clock(&self.clock)
    }

    /// Moves the clock on by `nanos`, unless that would take it past
    /// [`MAX_CLOCK_NANOS`]; says whether it moved.
    pub fn advance(&mut self, nanos: u64) -> (advanced: bool)
        ensures
            advanced <==> old(self).nanos() + nanos <= MAX_CLOCK_NANOS,
            advanced ==> final(self).nanos() == old(self).nanos() + nanos,
            !advanced ==> final(self).nanos() == old(self).nanos(),
    {
        let now = self.now();
        if nanos > MAX_CLOCK_NANOS - now {
            return false;
        }
        advance_clock(&mut self.clock, nanos);
        true
    }
}

/// Which store a limiter holds.
#[verifier::reject_recursive_types(K)]
enum Buckets<K: Clone + Hash + Eq> {
    System(SystemBuckets<K>),
    Manual(ManualBuckets<K>),
}

/// A shared handle on one keyed bucket store, with the quota that the store
/// was made for. The handles made by [`KeyedLimiter::share`] draw from the
/// same buckets.
#[verifier::reject_recursive_types(K)]
pub struct KeyedLimiter<K: Clone + Hash + Eq> {
    buckets: Buckets<K>,
    period_nanos: u64,
    burst_size: u32,
}

/// The period as the 64-bit count that the bucket store takes, if the quota
/// is usable.
fn usable_period(period_nanos: u128, burst_size: u32) -> (period: Option<u64>)
    ensures
        period is Some <==> valid_quota(period_nanos, burst_size),
        period matches Some(nanos) ==> nanos == period_nanos,
{
    if period_nanos == 0 || burst_size == 0 {
        return None;
    }
    if period_nanos > MAX_WINDOW_NANOS {
        assert(period_nanos * (burst_size + 1) >= period_nanos) by (nonlinear_arith)
            requires
                burst_size + 1 >= 1,
                period_nanos >= 0,
        ;
        return None;
    }
    let tokens: u128 = burst_size as u128 + 1;
    assert(period_nanos * tokens <= MAX_WINDOW_NANOS * 0x1_0000_0000) by (nonlinear_arith)
        requires
            period_nanos <= MAX_WINDOW_NANOS,
            tokens <= 0x1_0000_0000,
    ;
    if period_nanos * tokens > MAX_WINDOW_NANOS {
        return None;
    }
    Some(period_nanos as u64)
}

impl<K: Clone + Hash + Eq> KeyedLimiter<K> {
    /// The replenishment period of the quota, in nanoseconds.
    pub closed spec fn spec_period_nanos(&self) -> u64 {
        self.period_nanos
    }

    /// The burst size of the quota.
    pub closed spec fn spec_burst_size(&self) -> u32 {
        self.burst_size
    }

    /// The replenishment period of the quota, in nanoseconds.
    #[verifier::when_used_as_spec(spec_period_nanos)]
    pub fn period_nanos(&self) -> (period: u64)
        ensures
            period == self.spec_period_nanos(),
    {
        self.period_nanos
    }

    /// The burst size of the quota.
    #[verifier::when_used_as_spec(spec_burst_size)]
    pub fn burst_size(&self) -> (burst_size: u32)
        ensures
            burst_size == self.spec_burst_size(),
    {
        self.burst_size
    }

    /// A fresh store on the system clock for the quota, if the quota is
    /// usable.
    pub fn new(period_nanos: u128, burst_size: u32) -> (limiter: Option<Self>)
        ensures
            limiter is Some <==> valid_quota(period_nanos, burst_size),
            limiter matches Some(l) ==> l.period_nanos() == period_nanos && l.burst_size()
                == burst_size,
    {
        match usable_period(period_nanos, burst_size) {
            None => None,
            Some(nanos) => Some(
                KeyedLimiter {
                    buckets: Buckets::System(system_buckets(nanos, burst_size)),
                    period_nanos: nanos,
                    burst_size,
                },
            ),
        }
    }

    /// A fresh store on `clock` for the quota, if the quota is usable. Its
    /// buckets see the time that `clock` shows, also after later advances.
    pub fn with_clock(clock: &ManualClock, period_nanos: u128, burst_size: u32) -> (limiter:
        Option<Self>)
        ensures
            limiter is Some <==> valid_quota(period_nanos, burst_size),
            limiter matches Some(l) ==> l.period_nanos() == period_nanos && l.burst_size()
                == burst_size,
    {
        match usable_period(period_nanos, burst_size) {
            None => None,
            Some(nanos) => Some(
                KeyedLimiter {
                    buckets: Buckets::Manual(manual_buckets(&clock.clock, nanos, burst_size)),
                    period_nanos: nanos,
                    burst_size,
                },
            ),
        }
    }

    /// Another handle on the same buckets.
    pub fn share(&self) -> (shared: Self)
        ensures
            shared.period_nanos() == self.period_nanos(),
            shared.burst_size() == self.burst_size(),
    {
        let buckets = match &self.buckets {
            Buckets::System(buckets) => Buckets::System(share_system(buckets)),
            Buckets::Manual(buckets) => Buckets::Manual(share_manual(buckets)),
        };
        KeyedLimiter { buckets, period_nanos: self.period_nanos, burst_size: self.burst_size }
    }

    /// Checks `key` against its bucket, taking a token if one is there.
    /// Whether one is there is the store's to say: it depends on the time
    /// and on the checks made before. Either way the decision carries the
    /// burst size of this limiter's quota; a positive one carries the
    /// remaining capacity that the store reports, a negative one the wait,
    /// with less than a second in its nanoseconds part.
    pub fn check(&self, key: &K) -> (decision: Decision)
        ensures
            decision.burst_size() == self.burst_size(),
            decision matches Decision::Negative(negative) ==> negative.wf(),
    {
        let outcome = match &self.buckets {
            Buckets::System(buckets) => check_system(buckets, key),
            Buckets::Manual(buckets) => check_manual(buckets, key),
        };
        match outcome {
            Ok(remaining_burst_capacity) => Decision::Positive(
                StateSnapshot { burst_size: self.burst_size, remaining_burst_capacity },
            ),
            Err((wait_secs, wait_subsec_nanos)) => Decision::Negative(
                NotUntil { burst_size: self.burst_size, wait_secs, wait_subsec_nanos },
            ),
        }
    }
}

/// What a positive check reports: the bucket as it stands after the token
/// was taken.
#[derive(Clone, Copy, Debug, PartialEq, Eq, Structural)]
pub struct StateSnapshot {
    /// The burst capacity of the quota.
    pub burst_size: u32,
    /// How many more checks would be admitted at once.
    pub remaining_burst_capacity: u32,
}

/// What a negative check reports: how long until a token is available,
/// measured when the decision was made.
#[derive(Clone, Copy, Debug, PartialEq, Eq, Structural)]
pub struct NotUntil {
    /// The burst capacity of the quota.
    pub burst_size: u32,
    /// Whole seconds of the wait.
    pub wait_secs: u64,
    /// The rest of the wait, in nanoseconds, below one second.
    pub wait_subsec_nanos: u32,
}

impl NotUntil {
    /// The nanoseconds part is below one second.
    pub open spec fn wf(self) -> bool {
        self.wait_subsec_nanos < NANOS_PER_SEC
    }

    /// The wait in whole seconds, rounded down.
    pub fn wait_time_secs(&self) -> (secs: u64)
        ensures
            secs == self.wait_secs,
    {
        self.wait_secs
    }
}

/// The outcome of one check of a key against its bucket.
#[derive(Clone, Copy, Debug, PartialEq, Eq, Structural)]
pub enum Decision {
    /// A token was available and has been consumed.
    Positive(StateSnapshot),
    /// No token was available.
    Negative(NotUntil),
}

impl Decision {
    /// The burst capacity of the quota that the decision was made under.
    pub open spec fn burst_size(self) -> u32 {
        match self {
            Decision::Positive(snapshot) => snapshot.burst_size,
            Decision::Negative(negative) => negative.burst_size,
        }
    }
}

} // verus!
