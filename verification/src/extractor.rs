//! The way from the middleware to the handlers: a slot on each request in
//! which the limiter's finding is left, to be taken out once.

use crate::key_extractor::{KeyExtractor, PeerIpKeyExtractor};
use crate::service::GovernorResult;
use vstd::prelude::*;

verus! {

/// The error of a handler that asks for the limiter's finding on a request
/// that no rate limiter has seen.
#[derive(Debug, Clone, Copy, PartialEq, Eq, Structural)]
pub struct ExtractorError;

impl ExtractorError {
    /// The text of the error.
    pub fn to_string(&self) -> (text: String)
        ensures
            text@ == "No governor middleware found"@,
    {
        String::from_str("No governor middleware found")
    }
}

/// The slot of one request. It is empty until a middleware leaves its
/// finding, and empty again once the finding has been taken out.
#[derive(Debug, PartialEq, Eq)]
pub struct DecisionSlot<E> {
    pub result: Option<GovernorResult<E>>,
}

impl<E> DecisionSlot<E> {
    /// An empty slot.
    pub fn new() -> (slot: Self)
        ensures
            slot.result is None,
    {
        DecisionSlot { result: None }
    }

    /// Leaves `result` in the slot and hands back what was there before.
    pub fn insert(&mut self, result: GovernorResult<E>) -> (previous: Option<GovernorResult<E>>)
        ensures
            final(self).result == Some(result),
            previous == old(self).result,
    {
        let mut filled = Some(result);
        std::mem::swap(&mut self.result, &mut filled);
        filled
    }
}

/// The limiter's finding on a request, as a handler receives it.
#[derive(Debug)]
pub struct GovernorExtractor<K: KeyExtractor = PeerIpKeyExtractor>(
    pub GovernorResult<K::KeyExtractionError>,
);

impl<K: KeyExtractor> GovernorExtractor<K> {
    /// Takes the finding out of the request's slot. Fails if the slot is
    /// empty; either way the slot is empty afterwards.
    pub fn from_request(slot: &mut DecisionSlot<K::KeyExtractionError>) -> (found: Result<
        Self,
        ExtractorError,
    >)
        ensures
            final(slot).result is None,
            match old(slot).result {
                Some(result) => found matches Ok(extractor) && extractor.0 == result,
                None => found is Err,
            },
    {
        let mut taken = None;
        std::mem::swap(&mut slot.result, &mut taken);
        match taken {
            Some(result) => Ok(GovernorExtractor(result)),
            None => Err(ExtractorError),
        }
    }
}

} // verus!
