//! Key extraction: how a request is mapped to the key whose bucket it draws
//! from, and how a blocked request is answered.

use crate::http::{
    ContentType, Header, PeerIp, RequestView, Response, ResponseBuilder, INTERNAL_SERVER_ERROR,
};
use crate::limiter::NotUntil;
use crate::text::{decimal, to_decimal};
use std::fmt::{Debug, Display};
use std::hash::Hash;
use vstd::prelude::*;
use vstd::string::to_string_from_display_ensures;

verus! {

/// The default body of a rejection that asks the client to wait `wait` seconds.
pub open spec fn too_many_requests_body(wait: u64) -> Seq<char> {
    "Too many requests, retry in "@ + decimal(wait as nat) + "s"@
}

/// The default answer to a blocked request: the builder's status and headers,
/// a plain-text body that names the wait in whole seconds.
pub fn default_exceed_rate_limit_response(negative: &NotUntil, response: ResponseBuilder) -> (r:
    Response)
    ensures
        r.status_code == response.status_code,
        r.headers == response.headers,
        r.content_type == Some(ContentType::Plaintext),
        r.body@ == too_many_requests_body(negative.wait_secs),
{
    let wait_time = negative.wait_time_secs();
    let mut body = String::from_str("Too many requests, retry in ");
    let digits = to_decimal(wait_time);
    body.append(digits.as_str());
    body.append("s");
    response.content_type(ContentType::plaintext()).body(body)
}

/// What is needed to draw a rate-limiting key from a request.
///
/// Only `extract` has to be written; the other methods have defaults: no key
/// is whitelisted, and a blocked request gets the plain-text answer of
/// [`default_exceed_rate_limit_response`].
pub trait KeyExtractor: Clone {
    /// The type of the key.
    type Key: Clone + Hash + Eq;

    /// The type of the error when no key can be drawn from a request.
    type KeyExtractionError;

    /// A name for this extractor, for diagnostics only.
    fn name(&self) -> &'static str {
        "custom"
    }

    /// Draws the key from the request. Reads the request and nothing else.
    fn extract(&self, req: &RequestView) -> Result<Self::Key, Self::KeyExtractionError>;

    /// Whether requests with this key bypass the limiter.
    fn is_whitelisted(&self, key: &Self::Key) -> bool {
        false
    }

    /// The answer to a request that is blocked. `response` carries the
    /// status 429; status, content type and body are the extractor's to set.
    fn exceed_rate_limit_response(&self, negative: &NotUntil, response: ResponseBuilder) -> Response {
        default_exceed_rate_limit_response(negative, response)
    }

    /// A printable form of the key, for diagnostics only.
    fn key_name(&self, key: &Self::Key) -> Option<String> {
        None
    }
}

/// An error with an answer of its own: a body, a status (500 unless set) and
/// a content type (plain text unless set).
#[derive(Debug, PartialEq, Eq)]
pub struct SimpleKeyExtractionError<T: Display + Debug> {
    pub body: T,
    pub status_code: u16,
    pub content_type: ContentType,
}

impl<T: Display + Debug> SimpleKeyExtractionError<T> {
    /// An error with the given body, status 500 and plain-text content.
    pub fn new(body: T) -> (e: Self)
        ensures
            e.body == body,
            e.status_code == INTERNAL_SERVER_ERROR,
            e.content_type == ContentType::Plaintext,
    {
        Self { body, status_code: INTERNAL_SERVER_ERROR, content_type: ContentType::plaintext() }
    }

    /// Replaces the status.
    pub fn set_status_code(self, status_code: u16) -> (e: Self)
        ensures
            e.body == self.body,
            e.status_code == status_code,
            e.content_type == self.content_type,
    {
        Self { body: self.body, status_code, content_type: self.content_type }
    }

    /// Replaces the content type.
    pub fn set_content_type(self, content_type: ContentType) -> (e: Self)
        ensures
            e.body == self.body,
            e.status_code == self.status_code,
            e.content_type == content_type,
    {
        Self { body: self.body, status_code: self.status_code, content_type }
    }

    /// The status to answer with.
    pub fn status_code(&self) -> (code: u16)
        ensures
            code == self.status_code,
    {
        self.status_code
    }

    /// The answer that this error stands for: its status, its content type,
    /// no further headers, and its body as displayed.
    pub fn error_response(&self) -> (r: Response)
        ensures
            r.status_code == self.status_code,
            r.headers@ == Seq::<Header>::empty(),
            r.content_type == Some(self.content_type),
            to_string_from_display_ensures(&self.body, r.body),
    {
        ResponseBuilder::new(self.status_code).content_type(self.content_type.clone()).body(
            self.body.to_string(),
        )
    }
}

impl<T: Display + Debug> SimpleKeyExtractionError<T> {
    /// The text that the error is displayed as: its name, whatever it holds.
    pub fn to_string(&self) -> (text: String)
        ensures
            text@ == "SimpleKeyExtractionError"@,
    {
        String::from_str("SimpleKeyExtractionError")
    }
}

/// What the answer of an error with a text body is: its status, its content
/// type, no further headers, and the text as the body.
pub open spec fn is_text_response<T: Display + Debug>(
    error: SimpleKeyExtractionError<T>,
    text: Seq<char>,
    r: Response,
) -> bool {
    &&& r.status_code == error.status_code
    &&& r.headers@ == Seq::<Header>::empty()
    &&& r.content_type == Some(error.content_type)
    &&& r.body@ == text
}

impl SimpleKeyExtractionError<&'static str> {
    /// The answer that this error stands for, with its text as the body.
    pub fn text_response(&self) -> (r: Response)
        ensures
            is_text_response(*self, self.body@, r),
    {
        ResponseBuilder::new(self.status_code).content_type(self.content_type.clone()).body(
            String::from_str(self.body),
        )
    }
}

impl SimpleKeyExtractionError<String> {
    /// The answer that this error stands for, with its text as the body.
    pub fn text_response(&self) -> (r: Response)
        ensures
            is_text_response(*self, self.body@, r),
    {
        ResponseBuilder::new(self.status_code).content_type(self.content_type.clone()).body(
            self.body.clone(),
        )
    }
}

/// The extractor that gives every request the same key, so that all traffic
/// draws from one bucket.
#[derive(Debug, Clone, Copy, PartialEq, Eq)]
pub struct GlobalKeyExtractor;

/// The one key of the [`GlobalKeyExtractor`].
#[derive(Debug, Clone, Copy, PartialEq, Eq, Hash, Structural)]
pub struct GlobalKey;

impl KeyExtractor for GlobalKeyExtractor {
    type Key = GlobalKey;

    type KeyExtractionError = SimpleKeyExtractionError<&'static str>;

    fn name(&self) -> (n: &'static str)
        ensures
            n@ == "global"@,
    {
        "global"
    }

    fn extract(&self, req: &RequestView) -> (r: Result<Self::Key, Self::KeyExtractionError>)
        ensures
            r == Ok::<GlobalKey, SimpleKeyExtractionError<&'static str>>(GlobalKey),
    {
        Ok(GlobalKey)
    }

    fn is_whitelisted(&self, key: &Self::Key) -> (whitelisted: bool)
        ensures
            !whitelisted,
    {
        false
    }

    fn exceed_rate_limit_response(&self, negative: &NotUntil, response: ResponseBuilder) -> (r:
        Response)
        ensures
            r.status_code == response.status_code,
            r.headers == response.headers,
            r.content_type == Some(ContentType::Plaintext),
            r.body@ == too_many_requests_body(negative.wait_secs),
    {
        default_exceed_rate_limit_response(negative, response)
    }

    fn key_name(&self, key: &Self::Key) -> (n: Option<String>)
        ensures
            n is None,
    {
        None
    }
}

/// The extractor whose key is the address of the direct network peer.
///
/// Behind a reverse proxy every request has the proxy's address, and all
/// clients then share one bucket.
#[derive(Debug, Clone, Copy, PartialEq, Eq)]
pub struct PeerIpKeyExtractor;

/// The body of the error of a request without a peer address.
pub open spec fn missing_peer_body() -> Seq<char> {
    "Could not extract peer IP address from request"@
}

impl KeyExtractor for PeerIpKeyExtractor {
    type Key = PeerIp;

    type KeyExtractionError = SimpleKeyExtractionError<&'static str>;

    fn name(&self) -> (n: &'static str)
        ensures
            n@ == "peer IP"@,
    {
        "peer IP"
    }

    fn extract(&self, req: &RequestView) -> (r: Result<Self::Key, Self::KeyExtractionError>)
        ensures
            match req.peer_addr {
                Some(addr) => r == Ok::<PeerIp, SimpleKeyExtractionError<&'static str>>(addr),
                None => r matches Err(e) && e.body@ == missing_peer_body() && e.status_code
                    == INTERNAL_SERVER_ERROR && e.content_type == ContentType::Plaintext,
            },
    {
        match req.peer_addr {
            Some(addr) => Ok(addr),
            None => Err(
                SimpleKeyExtractionError::new("Could not extract peer IP address from request"),
            ),
        }
    }

    fn is_whitelisted(&self, key: &Self::Key) -> (whitelisted: bool)
        ensures
            !whitelisted,
    {
        false
    }

    fn exceed_rate_limit_response(&self, negative: &NotUntil, response: ResponseBuilder) -> (r:
        Response)
        ensures
            r.status_code == response.status_code,
            r.headers == response.headers,
            r.content_type == Some(ContentType::Plaintext),
            r.body@ == too_many_requests_body(negative.wait_secs),
    {
        default_exceed_rate_limit_response(negative, response)
    }
}

} // verus!
