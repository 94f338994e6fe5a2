//! Configuration: the quota, the key extractor, the method filter and the
//! optional behaviours, set on a builder and frozen by `finish`.

use crate::http::Method;
use crate::key_extractor::{KeyExtractor, PeerIpKeyExtractor};
use crate::limiter::{valid_quota, KeyedLimiter, ManualClock};
use crate::service::{clone_filter, filter_view, Policy};
use vstd::pervasive::cloned;
use vstd::prelude::*;

verus! {

/// Nanoseconds in one millisecond.
pub const NANOS_PER_MILLI: u128 = 1_000_000;

/// Nanoseconds in one second.
pub const NANOS_PER_SECOND: u128 = 1_000_000_000;

/// The default replenishment period in nanoseconds: half a second.
pub const DEFAULT_PERIOD: u128 = 500_000_000;

/// The default burst size.
pub const DEFAULT_BURST_SIZE: u32 = 8;

/// Collects the settings of a rate limiter. Periods are in nanoseconds.
#[derive(Debug, Clone, PartialEq, Eq)]
pub struct GovernorConfigBuilder<K: KeyExtractor> {
    pub period: u128,
    pub burst_size: u32,
    pub methods: Option<Vec<Method>>,
    pub key_extractor: K,
    pub use_headers: bool,
    pub permissive: bool,
}

/// A number of seconds in nanoseconds.
pub open spec fn seconds_to_nanos(seconds: u64) -> u128 {
    (seconds * NANOS_PER_SECOND) as u128
}

/// A number of milliseconds in nanoseconds.
pub open spec fn millis_to_nanos(milliseconds: u64) -> u128 {
    (milliseconds * NANOS_PER_MILLI) as u128
}

/// The period, in nanoseconds, at which `requests` tokens are replenished
/// each second: the whole nanoseconds of a second divided by `requests`, and
/// zero, which no quota accepts, for a rate of zero.
pub open spec fn period_of_rate(requests: u64) -> u128 {
    if requests == 0 {
        0
    } else {
        NANOS_PER_SECOND / (requests as u128)
    }
}

/// Computes [`period_of_rate`].
pub fn period_of_rate_nanos(requests: u64) -> (period: u128)
    ensures
        period == period_of_rate(requests),
{
    if requests == 0 {
        0
    } else {
        NANOS_PER_SECOND / (requests as u128)
    }
}

impl Default for GovernorConfigBuilder<PeerIpKeyExtractor> {
    /// Bursts of up to eight requests, one token every 500 ms, keyed by the
    /// peer's address, for every method, without headers, enforcing.
    fn default() -> (builder: Self)
        ensures
            builder.period == DEFAULT_PERIOD,
            builder.burst_size == DEFAULT_BURST_SIZE,
            builder.methods is None,
            !builder.use_headers,
            !builder.permissive,
    {
        Self::const_default()
    }
}

impl GovernorConfigBuilder<PeerIpKeyExtractor> {
    /// Bursts of up to eight requests, one token every 500 ms, keyed by the
    /// peer's address, for every method, without headers, enforcing.
    pub fn const_default() -> (builder: Self)
        ensures
            builder.period == DEFAULT_PERIOD,
            builder.burst_size == DEFAULT_BURST_SIZE,
            builder.methods is None,
            !builder.use_headers,
            !builder.permissive,
    {
        GovernorConfigBuilder {
            period: DEFAULT_PERIOD,
            burst_size: DEFAULT_BURST_SIZE,
            methods: None,
            key_extractor: PeerIpKeyExtractor,
            use_headers: false,
            permissive: false,
        }
    }

    /// Sets the replenishment period, in nanoseconds.
    pub fn const_period(self, duration: u128) -> (builder: Self)
        ensures
            builder == (GovernorConfigBuilder { period: duration, ..self }),
    {
        GovernorConfigBuilder { period: duration, ..self }
    }

    /// Sets the replenishment period, in seconds.
    pub fn const_per_second(self, seconds: u64) -> (builder: Self)
        ensures
            builder == (GovernorConfigBuilder { period: seconds_to_nanos(seconds), ..self }),
    {
        GovernorConfigBuilder { period: seconds as u128 * NANOS_PER_SECOND, ..self }
    }

    /// Sets the replenishment period, in milliseconds.
    pub fn const_per_millisecond(self, milliseconds: u64) -> (builder: Self)
        ensures
            builder == (GovernorConfigBuilder { period: millis_to_nanos(milliseconds), ..self }),
    {
        GovernorConfigBuilder { period: milliseconds as u128 * NANOS_PER_MILLI, ..self }
    }

    /// Sets the replenishment period, in nanoseconds.
    pub fn const_per_nanosecond(self, nanoseconds: u64) -> (builder: Self)
        ensures
            builder == (GovernorConfigBuilder { period: nanoseconds as u128, ..self }),
    {
        GovernorConfigBuilder { period: nanoseconds as u128, ..self }
    }

    /// Sets the burst size.
    pub fn const_burst_size(self, burst_size: u32) -> (builder: Self)
        ensures
            builder == (GovernorConfigBuilder { burst_size, ..self }),
    {
        GovernorConfigBuilder { burst_size, ..self }
    }
}

impl<K: KeyExtractor> GovernorConfigBuilder<K> {
    /// Sets the interval after which one token is replenished, in
    /// nanoseconds. Zero makes `finish` fail.
    pub fn period(&mut self, duration: u128) -> (builder: &mut Self)
        ensures
            *builder == (GovernorConfigBuilder { period: duration, ..*old(self) }),
            *final(self) == *final(builder),
    {
        self.period = duration;
        self
    }

    /// Sets the replenishment period, in seconds.
    pub fn per_second(&mut self, seconds: u64) -> (builder: &mut Self)
        ensures
            *builder == (GovernorConfigBuilder {
                period: seconds_to_nanos(seconds),
                ..*old(self)
            }),
            *final(self) == *final(builder),
    {
        self.period = seconds as u128 * NANOS_PER_SECOND;
        self
    }

    /// Sets the replenishment period, in milliseconds.
    pub fn per_millisecond(&mut self, milliseconds: u64) -> (builder: &mut Self)
        ensures
            *builder == (GovernorConfigBuilder {
                period: millis_to_nanos(milliseconds),
                ..*old(self)
            }),
            *final(self) == *final(builder),
    {
        self.period = milliseconds as u128 * NANOS_PER_MILLI;
        self
    }

    /// Sets the replenishment period, in nanoseconds.
    pub fn per_nanosecond(&mut self, nanoseconds: u64) -> (builder: &mut Self)
        ensures
            *builder == (GovernorConfigBuilder { period: nanoseconds as u128, ..*old(self) }),
            *final(self) == *final(builder),
    {
        self.period = nanoseconds as u128;
        self
    }

    /// Sets the replenishment period, in seconds per request.
    pub fn seconds_per_request(&mut self, seconds: u64) -> (builder: &mut Self)
        ensures
            *builder == (GovernorConfigBuilder {
                period: seconds_to_nanos(seconds),
                ..*old(self)
            }),
            *final(self) == *final(builder),
    {
        self.per_second(seconds)
    }

    /// Sets the replenishment period, in milliseconds per request.
    pub fn milliseconds_per_request(&mut self, milliseconds: u64) -> (builder: &mut Self)
        ensures
            *builder == (GovernorConfigBuilder {
                period: millis_to_nanos(milliseconds),
                ..*old(self)
            }),
            *final(self) == *final(builder),
    {
        self.per_millisecond(milliseconds)
    }

    /// Sets the replenishment period, in nanoseconds per request.
    pub fn nanoseconds_per_request(&mut self, nanoseconds: u64) -> (builder: &mut Self)
        ensures
            *builder == (GovernorConfigBuilder { period: nanoseconds as u128, ..*old(self) }),
            *final(self) == *final(builder),
    {
        self.per_nanosecond(nanoseconds)
    }

    /// Sets the replenishment period by the rate of requests per second.
    pub fn requests_per_second(&mut self, requests: u64) -> (builder: &mut Self)
        ensures
            *builder == (GovernorConfigBuilder { period: period_of_rate(requests), ..*old(self) }),
            *final(self) == *final(builder),
    {
        self.period = period_of_rate_nanos(requests);
        self
    }

    /// Sets how many requests may come at once before the limiter starts to
    /// block. Zero makes `finish` fail.
    pub fn burst_size(&mut self, burst_size: u32) -> (builder: &mut Self)
        ensures
            *builder == (GovernorConfigBuilder { burst_size, ..*old(self) }),
            *final(self) == *final(builder),
    {
        self.burst_size = burst_size;
        self
    }

    /// Limits only requests with one of these methods. Without a filter all
    /// methods are limited.
    pub fn methods(&mut self, methods: Vec<Method>) -> (builder: &mut Self)
        ensures
            *builder == (GovernorConfigBuilder { methods: Some(methods), ..*old(self) }),
            *final(self) == *final(builder),
    {
        self.methods = Some(methods);
        self
    }

    /// Lets requests over their quota through, and only records the decision.
    pub fn permissive(&mut self, permissive: bool) -> (builder: &mut Self)
        ensures
            *builder == (GovernorConfigBuilder { permissive, ..*old(self) }),
            *final(self) == *final(builder),
    {
        self.permissive = permissive;
        self
    }

    /// A builder with the same settings and another key extractor.
    pub fn key_extractor<K2: KeyExtractor>(&mut self, key_extractor: K2) -> (builder:
        GovernorConfigBuilder<K2>)
        ensures
            *final(self) == *old(self),
            builder.period == old(self).period,
            builder.burst_size == old(self).burst_size,
            filter_view(builder.methods) == filter_view(old(self).methods),
            builder.key_extractor == key_extractor,
            builder.use_headers == old(self).use_headers,
            builder.permissive == old(self).permissive,
    {
        GovernorConfigBuilder {
            period: self.period,
            burst_size: self.burst_size,
            methods: clone_filter(&self.methods),
            key_extractor,
            use_headers: self.use_headers,
            permissive: self.permissive,
        }
    }

    /// A builder with the same settings and the informational headers
    /// enabled: `x-ratelimit-limit` and `x-ratelimit-remaining` on limited
    /// requests, `x-ratelimit-whitelisted` on those that bypass the limiter.
    pub fn use_headers(&mut self) -> (builder: GovernorConfigBuilder<K>)
        ensures
            *final(self) == *old(self),
            cloned(old(self).key_extractor, builder.key_extractor),
            builder.period == old(self).period,
            builder.burst_size == old(self).burst_size,
            filter_view(builder.methods) == filter_view(old(self).methods),
            builder.use_headers,
            builder.permissive == old(self).permissive,
    {
        GovernorConfigBuilder {
            period: self.period,
            burst_size: self.burst_size,
            methods: clone_filter(&self.methods),
            key_extractor: self.key_extractor.clone(),
            use_headers: true,
            permissive: self.permissive,
        }
    }

    /// The configuration of these settings over the given bucket store.
    fn freeze(&self, limiter: KeyedLimiter<K::Key>) -> (config: GovernorConfig<K>)
        ensures
            cloned(self.key_extractor, config.key_extractor),
            config.limiter == limiter,
            filter_view(config.methods) == filter_view(self.methods),
            config.policy == (Policy {
                use_headers: self.use_headers,
                permissive: self.permissive,
            }),
    {
        GovernorConfig {
            key_extractor: self.key_extractor.clone(),
            limiter,
            methods: clone_filter(&self.methods),
            policy: Policy { use_headers: self.use_headers, permissive: self.permissive },
        }
    }

    /// Freezes the settings into a configuration with a fresh bucket store
    /// on the system clock. Fails if the burst size or the period is zero,
    /// or if the quota's window is beyond what the bucket arithmetic can
    /// hold; succeeds otherwise.
    pub fn finish(&mut self) -> (config: Option<GovernorConfig<K>>)
        ensures
            *final(self) == *old(self),
            old(self).period == 0 || old(self).burst_size == 0 ==> config is None,
            config is Some <==> valid_quota(old(self).period, old(self).burst_size),
            config matches Some(c) ==> {
                &&& cloned(old(self).key_extractor, c.key_extractor)
                &&& c.limiter.period_nanos() == old(self).period
                &&& c.limiter.burst_size() == old(self).burst_size
                &&& filter_view(c.methods) == filter_view(old(self).methods)
                &&& c.policy == (Policy {
                    use_headers: old(self).use_headers,
                    permissive: old(self).permissive,
                })
            },
    {
        match KeyedLimiter::new(self.period, self.burst_size) {
            None => None,
            Some(limiter) => Some(self.freeze(limiter)),
        }
    }

    /// As [`Self::finish`], with the bucket store on `clock` in place of the
    /// system clock.
    pub fn finish_with_clock(&mut self, clock: &ManualClock) -> (config: Option<GovernorConfig<K>>)
        ensures
            *final(self) == *old(self),
            old(self).period == 0 || old(self).burst_size == 0 ==> config is None,
            config is Some <==> valid_quota(old(self).period, old(self).burst_size),
            config matches Some(c) ==> {
                &&& cloned(old(self).key_extractor, c.key_extractor)
                &&& c.limiter.period_nanos() == old(self).period
                &&& c.limiter.burst_size() == old(self).burst_size
                &&& filter_view(c.methods) == filter_view(old(self).methods)
                &&& c.policy == (Policy {
                    use_headers: old(self).use_headers,
                    permissive: old(self).permissive,
                })
            },
    {
        match KeyedLimiter::with_clock(clock, self.period, self.burst_size) {
            None => None,
            Some(limiter) => Some(self.freeze(limiter)),
        }
    }
}

/// A frozen configuration. Its clones share one bucket store; a second
/// `finish` makes a separate store, with quotas of its own.
pub struct GovernorConfig<K: KeyExtractor> {
    pub key_extractor: K,
    pub limiter: KeyedLimiter<K::Key>,
    pub methods: Option<Vec<Method>>,
    pub policy: Policy,
}

impl<K: KeyExtractor> Clone for GovernorConfig<K> {
    fn clone(&self) -> (config: Self)
        ensures
            cloned(self.key_extractor, config.key_extractor),
            config.limiter.period_nanos() == self.limiter.period_nanos(),
            config.limiter.burst_size() == self.limiter.burst_size(),
            filter_view(config.methods) == filter_view(self.methods),
            config.policy == self.policy,
    {
        GovernorConfig {
            key_extractor: self.key_extractor.clone(),
            limiter: self.limiter.share(),
            methods: clone_filter(&self.methods),
            policy: self.policy,
        }
    }
}

impl Default for GovernorConfig<PeerIpKeyExtractor> {
    /// Bursts of up to eight requests, one token every 500 ms, keyed by the
    /// peer's address.
    fn default() -> (config: Self)
        ensures
            config.limiter.period_nanos() == DEFAULT_PERIOD,
            config.limiter.burst_size() == DEFAULT_BURST_SIZE,
            config.methods is None,
            config.policy == (Policy { use_headers: false, permissive: false }),
    {
        let mut builder = GovernorConfigBuilder::const_default();
        assert(valid_quota(DEFAULT_PERIOD, DEFAULT_BURST_SIZE));
        builder.finish().unwrap()
    }
}

impl GovernorConfig<PeerIpKeyExtractor> {
    /// A configuration for security-related services: bursts of up to two
    /// requests, one token every four seconds, keyed by the peer's address.
    pub fn secure() -> (config: Self)
        ensures
            config.limiter.period_nanos() == 4 * NANOS_PER_SECOND,
            config.limiter.burst_size() == 2,
            config.methods is None,
            config.policy == (Policy { use_headers: false, permissive: false }),
    {
        let mut builder = GovernorConfigBuilder {
            period: 4 * NANOS_PER_SECOND,
            burst_size: 2,
            methods: None,
            key_extractor: PeerIpKeyExtractor,
            use_headers: false,
            permissive: false,
        };
        assert(valid_quota((4 * NANOS_PER_SECOND) as u128, 2));
        builder.finish().unwrap()
    }
}

} // verus!
