//! The decision policy: how the limiter's decision, the method filter and
//! the key extractor's answers are turned into an admission, and which
//! headers an answer carries.

use crate::http::{
    contains_method, header_views, method_views, Header, Method, MethodView, RequestView,
    Response, ResponseBuilder, TOO_MANY_REQUESTS,
};
use crate::config::GovernorConfig;
use crate::http::clone_methods;
use crate::key_extractor::KeyExtractor;
use crate::limiter::{Decision, KeyedLimiter, NotUntil, StateSnapshot};
use crate::text::{decimal, to_decimal};
use vstd::pervasive::cloned;
use vstd::prelude::*;

verus! {

/// What the rate limiter found for one request, left for the handlers
/// downstream to read.
#[derive(Debug, PartialEq, Eq)]
pub enum GovernorResult<E> {
    /// The request was within the quota. The numbers are present when
    /// informational headers are enabled.
    Allowed { burst_size: Option<u32>, remaining: Option<u32> },
    /// The request was over the quota and has to wait `wait` seconds.
    Wait { wait: u64, burst_size: Option<u32> },
    /// The request bypassed the limiter.
    Whitelisted,
    /// No key could be drawn from the request.
    ExtractionError(E),
}

impl<E> GovernorResult<E> {
    pub fn ok() -> (r: Self)
        ensures
            r == (GovernorResult::<E>::Allowed { burst_size: None, remaining: None }),
    {
        GovernorResult::Allowed { burst_size: None, remaining: None }
    }

    pub fn ok_with_info(burst_size: u32, remaining: u32) -> (r: Self)
        ensures
            r == (GovernorResult::<E>::Allowed {
                burst_size: Some(burst_size),
                remaining: Some(remaining),
            }),
    {
        GovernorResult::Allowed { burst_size: Some(burst_size), remaining: Some(remaining) }
    }

    pub fn wait(wait: u64) -> (r: Self)
        ensures
            r == (GovernorResult::<E>::Wait { wait, burst_size: None }),
    {
        GovernorResult::Wait { wait, burst_size: None }
    }

    pub fn wait_with_info(wait: u64, burst_size: u32) -> (r: Self)
        ensures
            r == (GovernorResult::<E>::Wait { wait, burst_size: Some(burst_size) }),
    {
        GovernorResult::Wait { wait, burst_size: Some(burst_size) }
    }

    pub fn whitelist() -> (r: Self)
        ensures
            r == GovernorResult::<E>::Whitelisted,
    {
        GovernorResult::Whitelisted
    }

    pub fn err(e: E) -> (r: Self)
        ensures
            r == GovernorResult::<E>::ExtractionError(e),
    {
        GovernorResult::ExtractionError(e)
    }
}

/// The headers that report the quota on an admitted request.
pub open spec fn rate_limit_headers(burst_size: u32, remaining: u32) -> Seq<
    (Seq<char>, Seq<char>),
> {
    seq![
        ("x-ratelimit-limit"@, decimal(burst_size as nat)),
        ("x-ratelimit-remaining"@, decimal(remaining as nat)),
    ]
}

/// The header that marks a request that bypassed the limiter.
pub open spec fn whitelisted_headers() -> Seq<(Seq<char>, Seq<char>)> {
    seq![("x-ratelimit-whitelisted"@, "true"@)]
}

/// The headers of a rejection: always the wait in seconds; with a burst size,
/// the limit and a remaining capacity of zero as well.
pub open spec fn rejection_headers(wait: u64, burst_size: Option<u32>) -> Seq<
    (Seq<char>, Seq<char>),
> {
    match burst_size {
        None => seq![("x-ratelimit-after"@, decimal(wait as nat))],
        Some(limit) => seq![
            ("x-ratelimit-after"@, decimal(wait as nat)),
            ("x-ratelimit-limit"@, decimal(limit as nat)),
            ("x-ratelimit-remaining"@, decimal(0)),
        ],
    }
}

/// Builds the headers that report the quota on an admitted request.
pub fn rate_limit_header_list(burst_size: u32, remaining: u32) -> (headers: Vec<Header>)
    ensures
        header_views(headers@) == rate_limit_headers(burst_size, remaining),
{
    let mut headers: Vec<Header> = Vec::new();
    headers.push(Header::new("x-ratelimit-limit", to_decimal(burst_size as u64)));
    headers.push(Header::new("x-ratelimit-remaining", to_decimal(remaining as u64)));
    assert(header_views(headers@) =~= rate_limit_headers(burst_size, remaining));
    headers
}

/// Builds the header that marks a request that bypassed the limiter.
pub fn whitelisted_header_list() -> (headers: Vec<Header>)
    ensures
        header_views(headers@) == whitelisted_headers(),
{
    let mut headers: Vec<Header> = Vec::new();
    headers.push(Header::new("x-ratelimit-whitelisted", String::from_str("true")));
    assert(header_views(headers@) =~= whitelisted_headers());
    headers
}

/// A pending answer that gets the quota headers once it is ready.
pub struct RateLimitHeaderFut<F> {
    pub future: F,
    pub burst_size: u32,
    pub remaining_burst_capacity: u32,
}

impl<F> RateLimitHeaderFut<F> {
    /// The headers to set on the answer.
    pub fn headers(&self) -> (headers: Vec<Header>)
        ensures
            header_views(headers@) == rate_limit_headers(
                self.burst_size,
                self.remaining_burst_capacity,
            ),
    {
        rate_limit_header_list(self.burst_size, self.remaining_burst_capacity)
    }
}

/// A pending answer that gets the whitelist marker once it is ready.
pub struct WhitelistedHeaderFut<F> {
    pub future: F,
}

impl<F> WhitelistedHeaderFut<F> {
    /// The headers to set on the answer.
    pub fn headers(&self) -> (headers: Vec<Header>)
        ensures
            header_views(headers@) == whitelisted_headers(),
    {
        whitelisted_header_list()
    }
}

/// Builds the headers of a rejection.
pub fn rejection_header_list(wait: u64, burst_size: Option<u32>) -> (headers: Vec<Header>)
    ensures
        header_views(headers@) == rejection_headers(wait, burst_size),
{
    let mut headers: Vec<Header> = Vec::new();
    headers.push(Header::new("x-ratelimit-after", to_decimal(wait)));
    match burst_size {
        None => {},
        Some(limit) => {
            headers.push(Header::new("x-ratelimit-limit", to_decimal(limit as u64)));
            headers.push(Header::new("x-ratelimit-remaining", to_decimal(0)));
        },
    }
    assert(header_views(headers@) =~= rejection_headers(wait, burst_size));
    headers
}

/// Which headers an admitted request's answer is to carry.
#[derive(Clone, Copy, Debug, PartialEq, Eq, Structural)]
pub enum Decoration {
    /// None.
    Plain,
    /// The quota headers, as a [`RateLimitHeaderFut`] sets them.
    RateLimit { burst_size: u32, remaining: u32 },
    /// The whitelist marker, as a [`WhitelistedHeaderFut`] sets it.
    Whitelisted,
}

impl Decoration {
    /// The headers of a decoration.
    pub open spec fn spec_headers(self) -> Seq<(Seq<char>, Seq<char>)> {
        match self {
            Decoration::Plain => Seq::empty(),
            Decoration::RateLimit { burst_size, remaining } => rate_limit_headers(
                burst_size,
                remaining,
            ),
            Decoration::Whitelisted => whitelisted_headers(),
        }
    }

    /// The headers to set on the answer of an admitted request.
    pub fn headers(&self) -> (headers: Vec<Header>)
        ensures
            header_views(headers@) == self.spec_headers(),
    {
        match self {
            Decoration::Plain => {
                let headers: Vec<Header> = Vec::new();
                assert(header_views(headers@) =~= Seq::empty());
                headers
            },
            Decoration::RateLimit { burst_size, remaining } => rate_limit_header_list(
                *burst_size,
                *remaining,
            ),
            Decoration::Whitelisted => whitelisted_header_list(),
        }
    }
}

/// The verdict on one request.
#[derive(Debug, PartialEq, Eq)]
pub enum Admission<E> {
    /// The request goes on to the wrapped service. `result` is left for the
    /// handlers to read.
    Forward { result: GovernorResult<E>, decoration: Decoration },
    /// The request is answered at once with `response`, to which `headers`
    /// are added.
    Reject { result: GovernorResult<E>, headers: Vec<Header>, response: Response },
    /// The request fails with the key extractor's error.
    Fail(E),
}

/// What is left to do for a request after the steps that need no bucket.
#[derive(Debug, PartialEq, Eq)]
pub enum Step<K, E> {
    /// The verdict is settled; the limiter is not consulted.
    Done(Admission<E>),
    /// The bucket of this key has to be checked.
    Check(K),
}

/// The switches of the decision policy.
#[derive(Clone, Copy, Debug, PartialEq, Eq, Structural)]
pub struct Policy {
    /// Whether answers carry the informational headers.
    pub use_headers: bool,
    /// Whether a request over its quota is let through and only recorded.
    pub permissive: bool,
}

/// Whether a request with `method` is subject to limiting under the filter
/// `methods`: without a filter every request is, with one only those whose
/// method it lists.
pub open spec fn method_is_limited(methods: Option<Seq<MethodView>>, method: MethodView) -> bool {
    match methods {
        None => true,
        Some(listed) => listed.contains(method),
    }
}

/// The view of a method filter.
pub open spec fn filter_view(methods: Option<Vec<Method>>) -> Option<Seq<MethodView>> {
    match methods {
        None => None,
        Some(listed) => Some(method_views(listed@)),
    }
}

/// Decides whether a request with `method` is subject to limiting.
pub fn limits_method(methods: &Option<Vec<Method>>, method: &Method) -> (limited: bool)
    ensures
        limited == method_is_limited(filter_view(*methods), method@),
{
    match methods {
        None => true,
        Some(listed) => contains_method(listed, method),
    }
}

impl Policy {
    /// The verdict on a request that bypasses the limiter.
    pub open spec fn spec_whitelisted<E>(self) -> Admission<E> {
        Admission::Forward {
            result: GovernorResult::Whitelisted,
            decoration: if self.use_headers {
                Decoration::Whitelisted
            } else {
                Decoration::Plain
            },
        }
    }

    /// The verdict on a request from which no key could be drawn.
    pub open spec fn spec_extraction_failed<E>(self, error: E) -> Admission<E> {
        if self.permissive {
            Admission::Forward {
                result: GovernorResult::ExtractionError(error),
                decoration: Decoration::Plain,
            }
        } else {
            Admission::Fail(error)
        }
    }

    /// The verdict on a request that got a token.
    pub open spec fn spec_admitted<E>(self, snapshot: StateSnapshot) -> Admission<E> {
        if self.use_headers {
            Admission::Forward {
                result: GovernorResult::Allowed {
                    burst_size: Some(snapshot.burst_size),
                    remaining: Some(snapshot.remaining_burst_capacity),
                },
                decoration: Decoration::RateLimit {
                    burst_size: snapshot.burst_size,
                    remaining: snapshot.remaining_burst_capacity,
                },
            }
        } else {
            Admission::Forward {
                result: GovernorResult::Allowed { burst_size: None, remaining: None },
                decoration: Decoration::Plain,
            }
        }
    }

    /// What is recorded of a request that got no token.
    pub open spec fn spec_wait_result<E>(self, negative: NotUntil) -> GovernorResult<E> {
        GovernorResult::Wait {
            wait: negative.wait_secs,
            burst_size: if self.use_headers {
                Some(negative.burst_size)
            } else {
                None
            },
        }
    }

    /// Whether `admission` is a possible verdict on a request that got no
    /// token: in permissive mode it is forwarded with the wait recorded;
    /// otherwise it is rejected with the rejection headers, whatever the
    /// shaped answer is.
    pub open spec fn blocks<E>(self, negative: NotUntil, admission: Admission<E>) -> bool {
        if self.permissive {
            admission == (Admission::Forward {
                result: self.spec_wait_result::<E>(negative),
                decoration: Decoration::Plain,
            })
        } else {
            &&& admission matches Admission::Reject { result, headers, response }
            &&& result == self.spec_wait_result::<E>(negative)
            &&& header_views(headers@) == rejection_headers(
                negative.wait_secs,
                if self.use_headers {
                    Some(negative.burst_size)
                } else {
                    None
                },
            )
        }
    }

    /// The verdict on a request whose method the filter excludes, or whose
    /// key is whitelisted.
    pub fn whitelisted<E>(&self) -> (admission: Admission<E>)
        ensures
            admission == self.spec_whitelisted::<E>(),
    {
        let decoration = if self.use_headers {
            Decoration::Whitelisted
        } else {
            Decoration::Plain
        };
        Admission::Forward { result: GovernorResult::whitelist(), decoration }
    }

    /// The step after key extraction: a key has its bucket checked; a
    /// failure fails the request, or in permissive mode is recorded.
    pub fn on_extraction<K, E>(&self, extraction: Result<K, E>) -> (step: Step<K, E>)
        ensures
            step == match extraction {
                Ok(key) => Step::Check(key),
                Err(error) => Step::Done(self.spec_extraction_failed(error)),
            },
    {
        match extraction {
            Ok(key) => Step::Check(key),
            Err(error) => {
                if self.permissive {
                    Step::Done(
                        Admission::Forward {
                            result: GovernorResult::err(error),
                            decoration: Decoration::Plain,
                        },
                    )
                } else {
                    Step::Done(Admission::Fail(error))
                }
            },
        }
    }

    /// The step after the whitelist was asked: a whitelisted key is admitted
    /// without a check, any other has its bucket checked.
    pub fn on_key<K, E>(&self, key: K, whitelisted: bool) -> (step: Step<K, E>)
        ensures
            step == if whitelisted {
                Step::<K, E>::Done(self.spec_whitelisted())
            } else {
                Step::<K, E>::Check(key)
            },
    {
        if whitelisted {
            Step::Done(self.whitelisted())
        } else {
            Step::Check(key)
        }
    }

    /// The verdict on a request that got a token.
    pub fn admitted<E>(&self, snapshot: StateSnapshot) -> (admission: Admission<E>)
        ensures
            admission == self.spec_admitted::<E>(snapshot),
    {
        if self.use_headers {
            Admission::Forward {
                result: GovernorResult::ok_with_info(
                    snapshot.burst_size,
                    snapshot.remaining_burst_capacity,
                ),
                decoration: Decoration::RateLimit {
                    burst_size: snapshot.burst_size,
                    remaining: snapshot.remaining_burst_capacity,
                },
            }
        } else {
            Admission::Forward { result: GovernorResult::ok(), decoration: Decoration::Plain }
        }
    }

    /// What is recorded of a request that got no token.
    pub fn wait_result<E>(&self, negative: &NotUntil) -> (result: GovernorResult<E>)
        ensures
            result == self.spec_wait_result::<E>(*negative),
    {
        let wait = negative.wait_time_secs();
        if self.use_headers {
            GovernorResult::wait_with_info(wait, negative.burst_size)
        } else {
            GovernorResult::wait(wait)
        }
    }

    /// The verdict, in permissive mode, on a request that got no token: it
    /// goes on, with the wait recorded.
    pub fn observed<E>(&self, negative: &NotUntil) -> (admission: Admission<E>)
        ensures
            admission == (Admission::Forward {
                result: self.spec_wait_result::<E>(*negative),
                decoration: Decoration::Plain,
            }),
    {
        Admission::Forward { result: self.wait_result(negative), decoration: Decoration::Plain }
    }

    /// The verdict, outside permissive mode, on a request that got no token:
    /// it is answered with `response`, and the rejection headers go on top.
    pub fn rejected<E>(&self, negative: &NotUntil, response: Response) -> (admission: Admission<E>)
        ensures
            admission matches Admission::Reject { result, headers, response: shaped }
                && result == self.spec_wait_result::<E>(*negative)
                && header_views(headers@) == rejection_headers(
                negative.wait_secs,
                if self.use_headers {
                    Some(negative.burst_size)
                } else {
                    None
                },
            ) && shaped == response,
    {
        let limit = if self.use_headers {
            Some(negative.burst_size)
        } else {
            None
        };
        Admission::Reject {
            result: self.wait_result(negative),
            headers: rejection_header_list(negative.wait_time_secs(), limit),
            response,
        }
    }
}

impl Policy {
    /// Whether `admission` is one of the verdicts that the policy can reach.
    pub open spec fn reaches<E>(self, admission: Admission<E>) -> bool {
        ||| admission == self.spec_whitelisted::<E>()
        ||| exists|error: E| admission == #[trigger] self.spec_extraction_failed(error)
        ||| exists|snapshot: StateSnapshot| admission == #[trigger] self.spec_admitted::<E>(snapshot)
        ||| exists|negative: NotUntil| negative.wf() && #[trigger] self.blocks(negative, admission)
    }
}

/// In permissive mode no request is blocked: every verdict that the policy
/// reaches sends the request on.
pub proof fn lemma_permissive_never_blocks<E>(policy: Policy, admission: Admission<E>)
    requires
        policy.permissive,
        policy.reaches(admission),
    ensures
        admission is Forward,
{
}

/// Outside permissive mode a failed extraction and an exhausted bucket never
/// send the request on: what goes on was admitted or bypassed the limiter.
pub proof fn lemma_enforcing_forwards_only_the_admitted<E>(policy: Policy, admission: Admission<E>)
    requires
        !policy.permissive,
        policy.reaches(admission),
        admission is Forward,
    ensures
        admission->Forward_result is Allowed || admission->Forward_result is Whitelisted,
{
}

/// Every rejection names the wait: its first header is `x-ratelimit-after`
/// with the whole seconds that were recorded, and the limit and the
/// remaining capacity follow exactly when informational headers are enabled.
pub proof fn lemma_rejection_names_the_wait<E>(policy: Policy, admission: Admission<E>)
    requires
        policy.reaches(admission),
        admission is Reject,
    ensures
        admission->Reject_result is Wait,
        header_views(admission->Reject_headers@) == rejection_headers(
            admission->Reject_result->wait,
            admission->Reject_result->Wait_burst_size,
        ),
        admission->Reject_result->Wait_burst_size is Some <==> policy.use_headers,
        header_views(admission->Reject_headers@)[0] == (
            "x-ratelimit-after"@,
            decimal(admission->Reject_result->wait as nat),
        ),
{
}

/// A request that bypasses the limiter carries no quota numbers: its answer
/// has the whitelist marker or no header at all.
pub proof fn lemma_bypass_shows_no_quota<E>(policy: Policy)
    ensures
        policy.spec_whitelisted::<E>() matches Admission::Forward { result, decoration }
            && result is Whitelisted && decoration.spec_headers() == if policy.use_headers {
            whitelisted_headers()
        } else {
            Seq::empty()
        },
{
}

/// The factory of the middleware: holds what a configuration holds, and
/// hands it to each middleware it makes.
pub struct Governor<K: KeyExtractor> {
    pub key_extractor: K,
    pub limiter: KeyedLimiter<K::Key>,
    pub methods: Option<Vec<Method>>,
    pub policy: Policy,
}

/// A copy of a method filter.
pub fn clone_filter(methods: &Option<Vec<Method>>) -> (copy: Option<Vec<Method>>)
    ensures
        filter_view(copy) == filter_view(*methods),
        copy is Some <==> *methods is Some,
{
    match methods {
        None => None,
        Some(listed) => Some(clone_methods(listed)),
    }
}

impl<K: KeyExtractor> Governor<K> {
    /// A factory for the configuration. It shares the configuration's
    /// bucket store.
    pub fn new(config: &GovernorConfig<K>) -> (governor: Self)
        ensures
            cloned(config.key_extractor, governor.key_extractor),
            filter_view(governor.methods) == filter_view(config.methods),
            governor.policy == config.policy,
            governor.limiter.period_nanos() == config.limiter.period_nanos(),
            governor.limiter.burst_size() == config.limiter.burst_size(),
    {
        Governor {
            key_extractor: config.key_extractor.clone(),
            limiter: config.limiter.share(),
            methods: clone_filter(&config.methods),
            policy: config.policy,
        }
    }

    /// A middleware on the factory's bucket store.
    pub fn new_transform(&self) -> (middleware: GovernorMiddleware<K>)
        ensures
            cloned(self.key_extractor, middleware.key_extractor),
            filter_view(middleware.methods) == filter_view(self.methods),
            middleware.policy == self.policy,
            middleware.limiter.period_nanos() == self.limiter.period_nanos(),
            middleware.limiter.burst_size() == self.limiter.burst_size(),
    {
        GovernorMiddleware {
            key_extractor: self.key_extractor.clone(),
            limiter: self.limiter.share(),
            methods: clone_filter(&self.methods),
            policy: self.policy,
        }
    }
}

/// The rate limiter in front of a service: decides for each request whether
/// it goes on.
pub struct GovernorMiddleware<K: KeyExtractor> {
    pub key_extractor: K,
    pub limiter: KeyedLimiter<K::Key>,
    pub methods: Option<Vec<Method>>,
    pub policy: Policy,
}

impl<K: KeyExtractor> GovernorMiddleware<K> {
    /// Whether `response` is an answer of the key extractor's hook to a
    /// request blocked by `negative`, shaped from a builder with the status
    /// 429, no headers and no content type.
    pub open spec fn shaped_by_extractor(&self, negative: NotUntil, response: Response) -> bool {
        exists|builder: ResponseBuilder|
            builder.status_code == TOO_MANY_REQUESTS && builder.headers@ == Seq::<Header>::empty()
                && builder.content_type is None && #[trigger] call_ensures(
                K::exceed_rate_limit_response,
                (&self.key_extractor, &negative, builder),
                response,
            )
    }

    /// Whether `admission` is the verdict on a request whose bucket gave
    /// `decision`: a positive decision admits it; a negative one is recorded
    /// in permissive mode, and is otherwise answered by the key extractor's
    /// hook, under the rejection headers.
    pub open spec fn settles(
        &self,
        decision: Decision,
        admission: Admission<K::KeyExtractionError>,
    ) -> bool {
        match decision {
            Decision::Positive(snapshot) => admission == self.policy.spec_admitted::<
                K::KeyExtractionError,
            >(snapshot),
            Decision::Negative(negative) => {
                &&& self.policy.blocks(negative, admission)
                &&& !self.policy.permissive ==> admission is Reject && self.shaped_by_extractor(
                    negative,
                    admission->Reject_response,
                )
            },
        }
    }

    /// Whether `admission` is a verdict on a request whose bucket was
    /// checked: it settles a decision that the store may give, one under the
    /// limiter's quota and, if negative, with a well-formed wait.
    pub open spec fn settles_a_check(&self, admission: Admission<K::KeyExtractionError>) -> bool {
        exists|decision: Decision|
            decision.burst_size() == self.limiter.burst_size() && (decision matches Decision::Negative(
                negative,
            ) ==> negative.wf()) && #[trigger] self.settles(decision, admission)
    }

    /// Whether `admission` is a verdict on a request with the key `key`, for
    /// some answer of the key extractor on whether the key is whitelisted: a
    /// whitelisted key bypasses the limiter, any other has its bucket
    /// checked.
    pub open spec fn decides_key(
        &self,
        key: K::Key,
        admission: Admission<K::KeyExtractionError>,
    ) -> bool {
        exists|whitelisted: bool| #[trigger]
            call_ensures(K::is_whitelisted, (&self.key_extractor, &key), whitelisted)
                && if whitelisted {
                admission == self.policy.spec_whitelisted::<K::KeyExtractionError>()
            } else {
                self.settles_a_check(admission)
            }
    }

    /// Whether `admission` is a verdict on `req`: a request whose method the
    /// filter excludes bypasses the limiter; for any other the verdict
    /// follows from what the key extractor draws from it.
    pub open spec fn decides(
        &self,
        req: RequestView,
        admission: Admission<K::KeyExtractionError>,
    ) -> bool {
        if !method_is_limited(filter_view(self.methods), req.method@) {
            admission == self.policy.spec_whitelisted::<K::KeyExtractionError>()
        } else {
            exists|extraction: Result<K::Key, K::KeyExtractionError>| #[trigger]
                call_ensures(K::extract, (&self.key_extractor, &req), extraction)
                    && match extraction {
                    Err(error) => admission == self.policy.spec_extraction_failed(error),
                    Ok(key) => self.decides_key(key, admission),
                }
        }
    }

    /// The verdict on a request whose bucket gave `decision`. For a negative
    /// decision outside permissive mode the key extractor shapes the answer,
    /// from a builder with the status 429.
    pub fn on_decision(&self, decision: Decision) -> (admission: Admission<K::KeyExtractionError>)
        ensures
            self.settles(decision, admission),
    {
        match decision {
            Decision::Positive(snapshot) => self.policy.admitted(snapshot),
            Decision::Negative(negative) => {
                if self.policy.permissive {
                    self.policy.observed(&negative)
                } else {
                    let builder = ResponseBuilder::new(TOO_MANY_REQUESTS);
                    let response = self.key_extractor.exceed_rate_limit_response(
                        &negative,
                        builder,
                    );
                    self.policy.rejected(&negative, response)
                }
            },
        }
    }

    /// Decides on a request, in this order: a request whose method the
    /// filter excludes bypasses the limiter; then the key is extracted, and a
    /// failure ends the request (or, in permissive mode, is recorded); a
    /// whitelisted key bypasses the limiter; any other key has its bucket
    /// checked, and the decision is shaped by [`Self::on_decision`].
    ///
    /// What the key extractor and the bucket store answer is theirs to
    /// decide; the verdict is the one that follows from their answers, and
    /// so one that the policy reaches.
    pub fn call(&self, req: &RequestView) -> (admission: Admission<K::KeyExtractionError>)
        ensures
            self.decides(*req, admission),
            self.policy.reaches(admission),
    {
        if !limits_method(&self.methods, &req.method) {
            return self.policy.whitelisted();
        }
        let extraction = self.key_extractor.extract(req);
        match self.policy.on_extraction(extraction) {
            Step::Done(admission) => admission,
            Step::Check(key) => {
                let whitelisted = self.key_extractor.is_whitelisted(&key);
                match self.policy.on_key(key, whitelisted) {
                    Step::Done(admission) => admission,
                    Step::Check(key) => {
                        let decision = self.limiter.check(&key);
                        self.on_decision(decision)
                    },
                }
            },
        }
    }
}

} // verus!
