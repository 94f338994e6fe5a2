//! Keyed rate limiting for request pipelines: a request is mapped to a key,
//! the key is checked against a token bucket, and the decision is shaped into
//! an admission verdict.
//!
//! A quota allows a burst of requests per key and replenishes one token per
//! period. The buckets are kept by the `governor` crate; this library holds
//! the rules around them: which requests are limited at all, how a key is
//! drawn from a request, what becomes of a request that is over its quota,
//! and which headers the answers carry.
//!
//! The library works on plain values. The host server hands each request in
//! as a [`RequestView`], acts on the [`Admission`] that comes back, and
//! keeps one [`GovernorConfig`] for all its workers: a second configuration
//! has buckets of its own.

pub mod config;
pub mod extractor;
pub mod http;
pub mod key_extractor;
pub mod limiter;
pub mod service;
pub mod text;

pub use config::{
    GovernorConfig, GovernorConfigBuilder, DEFAULT_BURST_SIZE, DEFAULT_PERIOD,
};
pub use extractor::{DecisionSlot, ExtractorError, GovernorExtractor};
pub use http::{ContentType, Header, Method, PeerIp, RequestView, Response, ResponseBuilder};
pub use key_extractor::{
    GlobalKey, GlobalKeyExtractor, KeyExtractor, PeerIpKeyExtractor, SimpleKeyExtractionError,
};
pub use limiter::{Decision, KeyedLimiter, ManualClock, NotUntil, StateSnapshot};
pub use service::{
    Admission, Decoration, Governor, GovernorMiddleware, GovernorResult, Policy,
    RateLimitHeaderFut, Step, WhitelistedHeaderFut,
};
