//! Create-mapping and resolve, as the steps on either side of the store.
//!
//! The store itself is reached by the caller: it hands each step the record
//! to write or the outcome of the store operation, and gets back the answer
//! owed to the request.

use vstd::prelude::*;

use crate::models::Url;
use crate::short_id::{generate_short_id, is_short_id};

verus! {

/// Failure of a store operation: the backend could not be reached or the
/// operation failed. Never retried here.
#[derive(Debug, Clone, Copy, PartialEq, Eq, Structural)]
pub enum StoreError {
    Unavailable,
}

/// Why a short identifier did not resolve.
#[derive(Debug, Clone, Copy, PartialEq, Eq, Structural)]
pub enum ResolveError {
    /// The store holds no mapping for the identifier.
    NotFound,
    /// The store could not answer.
    StoreUnavailable,
}

/// Answer to a create-mapping request once the store has answered the write
/// of `url`.
pub open spec fn create_answer(url: Url, written: Result<(), StoreError>) -> Result<Url, StoreError> {
    match written {
        Ok(()) => Ok(url),
        Err(_) => Err(StoreError::Unavailable),
    }
}

/// Answer to a resolve request once the store has answered the lookup.
pub open spec fn resolve_answer(found: Result<Option<Url>, StoreError>) -> Result<Url, ResolveError> {
    match found {
        Ok(Some(url)) => Ok(url),
        Ok(None) => Err(ResolveError::NotFound),
        Err(_) => Err(ResolveError::StoreUnavailable),
    }
}

/// First step of create-mapping: the record to write, with a freshly
/// generated identifier and `long_url` unmodified.
pub fn new_mapping(long_url: String) -> (url: Url)
    ensures
        url.long_url == long_url,
        is_short_id(url.short_id@),
{
    let short_id = generate_short_id();
    Url { short_id, long_url }
}

/// Last step of create-mapping: the written record on success, and
/// `StoreError::Unavailable` whenever the write failed.
pub fn finish_create(url: Url, written: Result<(), StoreError>) -> (r: Result<Url, StoreError>)
    ensures
        r == create_answer(url, written),
{
    match written {
        Ok(()) => Ok(url),
        Err(_) => Err(StoreError::Unavailable),
    }
}

/// Last step of resolve: the mapping that the lookup found, `NotFound` when
/// it found none, and `StoreUnavailable` when the lookup failed.
pub fn finish_resolve(found: Result<Option<Url>, StoreError>) -> (r: Result<Url, ResolveError>)
    ensures
        r == resolve_answer(found),
{
    match found {
        Ok(Some(url)) => Ok(url),
        Ok(None) => Err(ResolveError::NotFound),
        Err(_) => Err(ResolveError::StoreUnavailable),
    }
}

/// A mapping created for `long_url` whose write the store accepted, and
/// which a later lookup of its identifier hands back, resolves to a record
/// with `long_url` unmodified and the same well-formed identifier.
pub proof fn lemma_round_trip(long_url: String, url: Url)
    requires
        url.long_url == long_url,
        is_short_id(url.short_id@),
    ensures
        create_answer(url, Ok(())) == Ok::<Url, StoreError>(url),
        resolve_answer(Ok(Some(url))) matches Ok(found) && found.long_url@ == long_url@
            && found.short_id@ == url.short_id@ && is_short_id(found.short_id@),
{
}

/// A lookup that the store answers with no record resolves to `NotFound`,
/// never to a store failure.
pub proof fn lemma_absent_is_not_found()
    ensures
        resolve_answer(Ok(None)) == Err::<Url, ResolveError>(ResolveError::NotFound),
{
}

/// When the store cannot be reached, both create-mapping and resolve answer
/// with the store failure, whatever record or error is at hand.
pub proof fn lemma_unreachable_store(url: Url, write_error: StoreError, lookup_error: StoreError)
    ensures
        create_answer(url, Err(write_error)) == Err::<Url, StoreError>(StoreError::Unavailable),
        resolve_answer(Err(lookup_error)) == Err::<Url, ResolveError>(ResolveError::StoreUnavailable),
{
}

} // verus!
