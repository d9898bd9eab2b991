//! The cache-aside lookup of one currency pair, and the uncached lookup of a
//! whole rate table.
//!
//! A lookup is two steps around one request that the caller sends. The first
//! step consults the cache and either answers at once or names the request.
//! The second step takes the service's reply, stores the quoted rate if there
//! is one, and gives the result. No step holds on to the cache in between, so
//! two lookups of one pair may both miss and both ask; the one that finishes
//! last leaves its rate in the cache.

use crate::api::pair_key;
use crate::api::pair_key_of;
use crate::api::pair_url;
use crate::api::pair_url_of;
use crate::api::ApiError;
use crate::api::ApiErrorView;
use crate::cache::age;
use crate::cache::CacheEntry;
use crate::cache::CacheState;
use crate::cache::RateCache;
use crate::rate::Rate;
use std::collections::HashMap;
use vstd::prelude::*;
use vstd::string::StringExecFns;

verus! {

/// How one request to the service ended.
#[derive(Debug)]
pub enum HttpReply<T> {
    /// The transport failed: no response came back, or it broke off before
    /// its body had arrived. Holds the transport's description of the failure.
    Unreachable(String),
    /// A response came back with a status other than success. Holds its body
    /// as text, where that could be read.
    Refused(Option<String>),
    /// A response came back whole with a success status, but its body was not
    /// of the expected form. Holds the decoder's description of the failure.
    Undecodable(String),
    /// A response came back with a success status and this body.
    Decoded(T),
}

/// The body of an answer to a request for one pair.
#[derive(Debug)]
pub struct ConversionRateResponse {
    /// The service's verdict on the request: `success`, or something else.
    pub result: String,
    /// The quoted rate.
    pub conversion_rate: Rate,
}

/// The body of an answer to a request for a whole rate table.
#[derive(Debug)]
pub struct ApiResponse {
    /// The service's verdict on the request: `success`, or something else.
    pub result: String,
    /// The quoted rates by currency code.
    pub conversion_rates: HashMap<String, Rate>,
}

/// The first step of a lookup.
#[derive(Debug)]
pub enum FetchStep {
    /// The cache holds a live rate: this is the answer, and nothing is to be
    /// asked of the service.
    Cached(Rate),
    /// The cache holds no live rate: `url` is to be asked, once, and the reply
    /// handed in under the key `pair`.
    Request { pair: String, url: String },
}

/// The verdict with which the service marks a body that holds what was asked.
pub open spec fn success_verdict() -> Seq<char> {
    "success"@
}

/// The description given when a request for one pair is refused.
pub open spec fn pair_refused_text() -> Seq<char> {
    "Failed to fetch data from the API. One or both of the curriencies are not valid."@
}

/// The description given when a refused request for a rate table came with a
/// body that could not be read.
pub open spec fn unknown_refusal_text() -> Seq<char> {
    "Unknown error occurred."@
}

/// The description given when a body's verdict is not success.
pub open spec fn bad_verdict_text() -> Seq<char> {
    "API responded with an error."@
}

/// What a reply to a request for one pair means: the quoted rate where the
/// body arrived, was decoded and is marked a success, and otherwise the error
/// that says what went wrong. Only a failure of the transport is a network
/// error; a refusal, a malformed body and a verdict other than success are
/// errors of the service's response.
pub open spec fn pair_outcome(reply: HttpReply<ConversionRateResponse>) -> Result<
    Rate,
    ApiErrorView,
> {
    match reply {
        HttpReply::Unreachable(cause) => Err(ApiErrorView::Network(cause@)),
        HttpReply::Refused(_) => Err(ApiErrorView::ApiResponseError(pair_refused_text())),
        HttpReply::Undecodable(cause) => Err(ApiErrorView::ApiResponseError(cause@)),
        HttpReply::Decoded(body) => if body.result@ == success_verdict() {
            Ok(body.conversion_rate)
        } else {
            Err(ApiErrorView::ApiResponseError(bad_verdict_text()))
        },
    }
}

/// What a reply to a request for a rate table means: the quoted table where
/// the body arrived, was decoded and is marked a success, and otherwise the
/// error that says what went wrong. Only a failure of the transport is a
/// network error. A refusal is described by its own body, a malformed body by
/// the decoder.
pub open spec fn table_outcome(reply: HttpReply<ApiResponse>) -> Result<
    HashMap<String, Rate>,
    ApiErrorView,
> {
    match reply {
        HttpReply::Unreachable(cause) => Err(ApiErrorView::Network(cause@)),
        HttpReply::Refused(Some(body)) => Err(ApiErrorView::ApiResponseError(body@)),
        HttpReply::Refused(None) => Err(ApiErrorView::ApiResponseError(unknown_refusal_text())),
        HttpReply::Undecodable(cause) => Err(ApiErrorView::ApiResponseError(cause@)),
        HttpReply::Decoded(body) => if body.result@ == success_verdict() {
            Ok(body.conversion_rates)
        } else {
            Err(ApiErrorView::ApiResponseError(bad_verdict_text()))
        },
    }
}

/// A result is the expected one: the same value, or an error with the same
/// variant and text.
pub open spec fn is_outcome<T>(got: Result<T, ApiError>, expected: Result<T, ApiErrorView>) -> bool {
    match got {
        Ok(value) => expected == Ok::<T, ApiErrorView>(value),
        Err(error) => expected == Err::<T, ApiErrorView>(error@),
    }
}

/// The first step of a lookup at time `now`: the live cached rate if there is
/// one, else the request to send.
pub open spec fn first_step(
    cache: CacheState,
    api_key: Seq<char>,
    source: Seq<char>,
    target: Seq<char>,
    now: u128,
    step: FetchStep,
) -> bool {
    match cache.lookup(pair_key_of(source, target), now) {
        Some(rate) => step == FetchStep::Cached(rate),
        None => step matches FetchStep::Request { pair, url } && pair@ == pair_key_of(
            source,
            target,
        ) && url@ == pair_url_of(api_key, source, target),
    }
}

/// The cache after the second step of a lookup at time `now`: a quoted rate is
/// recorded under `pair`, and any error leaves the cache as it was.
pub open spec fn after_reply(
    cache: CacheState,
    pair: Seq<char>,
    reply: HttpReply<ConversionRateResponse>,
    now: u128,
) -> CacheState {
    match pair_outcome(reply) {
        Ok(rate) => cache.record(pair, rate, now),
        Err(_) => cache,
    }
}

/// Whether a body's verdict is the service's word for success.
fn is_success(verdict: &String) -> (yes: bool)
    ensures
        yes == (verdict@ == success_verdict()),
{
    let expected = String::from_str("success");
    *verdict == expected
}

/// Reads a reply to a request for one pair.
pub fn read_pair_reply(reply: HttpReply<ConversionRateResponse>) -> (result: Result<
    Rate,
    ApiError,
>)
    ensures
        is_outcome(result, pair_outcome(reply)),
{
    match reply {
        HttpReply::Unreachable(cause) => Err(ApiError::Network(cause)),
        HttpReply::Refused(_) => Err(
            ApiError::ApiResponseError(
                String::from_str(
                    "Failed to fetch data from the API. One or both of the curriencies are not valid.",
                ),
            ),
        ),
        HttpReply::Undecodable(cause) => Err(ApiError::ApiResponseError(cause)),
        HttpReply::Decoded(body) => {
            if is_success(&body.result) {
                Ok(body.conversion_rate)
            } else {
                Err(ApiError::ApiResponseError(String::from_str("API responded with an error.")))
            }
        },
    }
}

/// Reads a reply to a request for a whole rate table. The cache plays no part
/// in this lookup: every table is asked of the service.
pub fn read_table_reply(reply: HttpReply<ApiResponse>) -> (result: Result<
    HashMap<String, Rate>,
    ApiError,
>)
    ensures
        is_outcome(result, table_outcome(reply)),
{
    match reply {
        HttpReply::Unreachable(cause) => Err(ApiError::Network(cause)),
        HttpReply::Refused(Some(body)) => Err(ApiError::ApiResponseError(body)),
        HttpReply::Refused(None) => Err(
            ApiError::ApiResponseError(String::from_str("Unknown error occurred.")),
        ),
        HttpReply::Undecodable(cause) => Err(ApiError::ApiResponseError(cause)),
        HttpReply::Decoded(body) => {
            if is_success(&body.result) {
                Ok(body.conversion_rates)
            } else {
                Err(ApiError::ApiResponseError(String::from_str("API responded with an error.")))
            }
        },
    }
}

/// The first step of a lookup of the rate from `source` to `target`, at time
/// `now`. On a live cached rate it answers with that rate and names no
/// request. The cache is not changed.
pub fn begin_fetch_at(
    cache: &RateCache,
    api_key: &str,
    source: &str,
    target: &str,
    now: u128,
) -> (step: FetchStep)
    ensures
        first_step(cache@, api_key@, source@, target@, now, step),
{
    let pair = pair_key(source, target);
    match cache.get_at(pair.as_str(), now) {
        Some(rate) => FetchStep::Cached(rate),
        None => {
            let url = pair_url(api_key, source, target);
            FetchStep::Request { pair, url }
        },
    }
}

/// The second step of a lookup, at time `now`: reads the reply to the request
/// that the first step named. A quoted rate is stored under `pair` and
/// returned; an error is returned as it is and leaves the cache untouched.
pub fn finish_fetch_at(
    cache: &mut RateCache,
    pair: String,
    reply: HttpReply<ConversionRateResponse>,
    now: u128,
) -> (result: Result<Rate, ApiError>)
    ensures
        is_outcome(result, pair_outcome(reply)),
        final(cache)@ == after_reply(old(cache)@, pair@, reply, now),
{
    let result = read_pair_reply(reply);
    match &result {
        Ok(rate) => {
            cache.set_at(pair, *rate, now);
        },
        Err(_) => {},
    }
    result
}

/// The first step of a lookup, at the current reading of the cache's clock.
/// Whatever the clock says, a rate that is returned is the one stored for the
/// pair, and a request is the one for this pair.
pub fn begin_fetch(cache: &RateCache, api_key: &str, source: &str, target: &str) -> (step:
    FetchStep)
    ensures
        exists|now: u128| first_step(cache@, api_key@, source@, target@, now, step),
{
    let now: u128 = cache.now();
    let step = begin_fetch_at(cache, api_key, source, target, now);
    assert(first_step(cache@, api_key@, source@, target@, now, step));
    step
}

/// The second step of a lookup, at the current reading of the cache's clock.
/// Whatever the clock says, the result is what the reply means, and the cache
/// is changed only by a quoted rate, which is then stored under `pair`.
pub fn finish_fetch(cache: &mut RateCache, pair: String, reply: HttpReply<ConversionRateResponse>) -> (result:
    Result<Rate, ApiError>)
    ensures
        is_outcome(result, pair_outcome(reply)),
        exists|now: u128| final(cache)@ == after_reply(old(cache)@, pair@, reply, now),
        pair_outcome(reply) is Err ==> final(cache)@ == old(cache)@,
{
    let now: u128 = cache.now();
    let result = finish_fetch_at(cache, pair, reply, now);
    assert(final(cache)@ == after_reply(old(cache)@, pair@, reply, now));
    result
}

/// A hit asks nothing of the service: after a rate was stored for a pair, the
/// first step of every lookup of that pair, for as long as the rate's age is
/// below the time window, is the stored rate and names no request.
pub proof fn lemma_hit_names_no_request(
    cache: CacheState,
    api_key: Seq<char>,
    source: Seq<char>,
    target: Seq<char>,
    rate: Rate,
    at: u128,
    now: u128,
    step: FetchStep,
)
    requires
        age(at, now) < cache.ttl,
        first_step(
            cache.record(pair_key_of(source, target), rate, at),
            api_key,
            source,
            target,
            now,
            step,
        ),
    ensures
        step == FetchStep::Cached(rate),
{
}

/// An expired rate is asked for again: once the age of the stored rate has
/// reached the time window, the first step of a lookup of its pair names one
/// request, the one for this pair.
pub proof fn lemma_expired_rate_names_one_request(
    cache: CacheState,
    api_key: Seq<char>,
    source: Seq<char>,
    target: Seq<char>,
    rate: Rate,
    at: u128,
    now: u128,
    step: FetchStep,
)
    requires
        age(at, now) >= cache.ttl,
        first_step(
            cache.record(pair_key_of(source, target), rate, at),
            api_key,
            source,
            target,
            now,
            step,
        ),
    ensures
        step matches FetchStep::Request { pair, url } && pair@ == pair_key_of(source, target)
            && url@ == pair_url_of(api_key, source, target),
{
}

/// A whole lookup that misses and is answered with a quote stores that quote:
/// every first step for the same pair, for as long as the quote's age is below
/// the time window, is the quoted rate.
pub proof fn lemma_quote_is_cached(
    cache: CacheState,
    api_key: Seq<char>,
    source: Seq<char>,
    target: Seq<char>,
    reply: HttpReply<ConversionRateResponse>,
    at: u128,
    now: u128,
    step: FetchStep,
)
    requires
        pair_outcome(reply) is Ok,
        age(at, now) < cache.ttl,
        first_step(
            after_reply(cache, pair_key_of(source, target), reply, at),
            api_key,
            source,
            target,
            now,
            step,
        ),
    ensures
        step == FetchStep::Cached(pair_outcome(reply)->Ok_0),
{
}

/// An error is not cached: a reply that means an error leaves the cache as it
/// was, so a pair that read as absent before still does, at every time, and the
/// next lookup of it names a request again.
pub proof fn lemma_error_is_not_cached(
    cache: CacheState,
    pair: Seq<char>,
    reply: HttpReply<ConversionRateResponse>,
    at: u128,
    now: u128,
)
    requires
        pair_outcome(reply) is Err,
    ensures
        after_reply(cache, pair, reply, at) == cache,
        after_reply(cache, pair, reply, at).lookup(pair, now) == cache.lookup(pair, now),
{
}

/// A failure does not stand in the way of a later success: after a reply that
/// means an error, a reply with a quote for the same pair leaves the cache as
/// on a cache that never saw the error. The quote is stored under the pair
/// with the time of its arrival, and is read back at every time at which its
/// age is below the time window, and at no other.
pub proof fn lemma_success_after_error(
    cache: CacheState,
    pair: Seq<char>,
    failed: HttpReply<ConversionRateResponse>,
    failed_at: u128,
    quoted: HttpReply<ConversionRateResponse>,
    quoted_at: u128,
    now: u128,
)
    requires
        pair_outcome(failed) is Err,
        pair_outcome(quoted) is Ok,
    ensures
        after_reply(after_reply(cache, pair, failed, failed_at), pair, quoted, quoted_at)
            == after_reply(cache, pair, quoted, quoted_at),
        after_reply(cache, pair, quoted, quoted_at).entries.contains_key(pair),
        after_reply(cache, pair, quoted, quoted_at).entries[pair] == (CacheEntry {
            rate: pair_outcome(quoted)->Ok_0,
            recorded_at: quoted_at,
        }),
        after_reply(after_reply(cache, pair, failed, failed_at), pair, quoted, quoted_at).lookup(
            pair,
            now,
        ) == (if age(quoted_at, now) < cache.ttl {
            Some(pair_outcome(quoted)->Ok_0)
        } else {
            None
        }),
{
}

} // verus!
