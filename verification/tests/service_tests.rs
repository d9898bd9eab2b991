use currency_converter::api::{latest_url, pair_key, pair_url, unexpected_error_message, ApiError};
use currency_converter::service::{
    begin_fetch, begin_fetch_at, finish_fetch, finish_fetch_at, read_pair_reply, read_table_reply,
    ConversionRateResponse, FetchStep, HttpReply,
};
use currency_converter::{ApiResponse, Rate, RateCache};
use std::collections::HashMap;

const HOUR: u128 = 3_600_000_000_000;

fn rate(x: f64) -> Rate {
    Rate::from_bits(x.to_bits())
}

fn quote(x: f64) -> HttpReply<ConversionRateResponse> {
    HttpReply::Decoded(ConversionRateResponse { result: "success".to_string(), conversion_rate: rate(x) })
}

/// A stand-in for the service: counts the requests and answers each with the
/// reply that `answer` makes.
struct StubClient {
    calls: u32,
    asked: Vec<String>,
}

/// A whole lookup at time `now`, with the stub in place of the network.
fn fetch_rate(
    cache: &mut RateCache,
    client: &mut StubClient,
    answer: fn() -> HttpReply<ConversionRateResponse>,
    source: &str,
    target: &str,
    now: u128,
) -> Result<Rate, ApiError> {
    match begin_fetch_at(cache, "KEY", source, target, now) {
        FetchStep::Cached(rate) => Ok(rate),
        FetchStep::Request { pair, url } => {
            client.calls += 1;
            client.asked.push(url);
            finish_fetch_at(cache, pair, answer(), now)
        }
    }
}

fn quote_092() -> HttpReply<ConversionRateResponse> {
    quote(0.92)
}

fn quote_095() -> HttpReply<ConversionRateResponse> {
    quote(0.95)
}

fn unreachable_service() -> HttpReply<ConversionRateResponse> {
    HttpReply::Unreachable("connection refused".to_string())
}

#[test]
fn pair_key_joins_codes_with_underscore() {
    assert_eq!(pair_key("USD", "EUR"), "USD_EUR");
    assert_eq!(pair_key("usd", "Eur"), "usd_Eur");
    assert_eq!(pair_key("", ""), "_");
    assert_eq!(pair_key("A_B", "C"), "A_B_C");
}

#[test]
fn urls_are_built_from_key_and_codes() {
    assert_eq!(
        pair_url("abc123", "USD", "EUR"),
        "https://v6.exchangerate-api.com/v6/abc123/pair/USD/EUR"
    );
    assert_eq!(latest_url("abc123", "USD"), "https://v6.exchangerate-api.com/v6/abc123/latest/USD");
    assert_eq!(latest_url("", "GBP"), "https://v6.exchangerate-api.com/v6//latest/GBP");
}

#[test]
fn end_to_end_two_hour_ttl() {
    let mut cache = RateCache::new(2 * HOUR);
    let mut client = StubClient { calls: 0, asked: Vec::new() };
    let first = fetch_rate(&mut cache, &mut client, quote_092, "USD", "EUR", 0);
    assert_eq!(first, Ok(rate(0.92)));
    assert_eq!(client.calls, 1);
    let second = fetch_rate(&mut cache, &mut client, quote_092, "USD", "EUR", 1);
    assert_eq!(second, Ok(rate(0.92)));
    assert_eq!(client.calls, 1);
    let third = fetch_rate(&mut cache, &mut client, quote_092, "USD", "EUR", 3 * HOUR);
    assert_eq!(third, Ok(rate(0.92)));
    assert_eq!(client.calls, 2);
    assert_eq!(
        client.asked,
        vec![
            "https://v6.exchangerate-api.com/v6/KEY/pair/USD/EUR".to_string(),
            "https://v6.exchangerate-api.com/v6/KEY/pair/USD/EUR".to_string()
        ]
    );
}

#[test]
fn repeated_hits_ask_nothing() {
    let mut cache = RateCache::new(2 * HOUR);
    let mut client = StubClient { calls: 0, asked: Vec::new() };
    for n in 0..50u128 {
        let got = fetch_rate(&mut cache, &mut client, quote_092, "USD", "EUR", n * 1_000_000);
        assert_eq!(got, Ok(rate(0.92)));
        assert_eq!(client.calls, 1);
    }
}

#[test]
fn hit_after_direct_set_asks_nothing() {
    let mut cache = RateCache::new(2 * HOUR);
    let mut client = StubClient { calls: 0, asked: Vec::new() };
    cache.set_at(pair_key("USD", "EUR"), rate(0.91), 0);
    let got = fetch_rate(&mut cache, &mut client, quote_092, "USD", "EUR", HOUR);
    assert_eq!(got, Ok(rate(0.91)));
    assert_eq!(client.calls, 0);
}

#[test]
fn expiry_costs_exactly_one_more_request() {
    let mut cache = RateCache::new(2 * HOUR);
    let mut client = StubClient { calls: 0, asked: Vec::new() };
    assert_eq!(fetch_rate(&mut cache, &mut client, quote_092, "USD", "EUR", 0), Ok(rate(0.92)));
    assert_eq!(cache.get_at("USD_EUR", 2 * HOUR), None);
    assert_eq!(
        fetch_rate(&mut cache, &mut client, quote_095, "USD", "EUR", 2 * HOUR),
        Ok(rate(0.95))
    );
    assert_eq!(client.calls, 2);
    assert_eq!(
        fetch_rate(&mut cache, &mut client, quote_092, "USD", "EUR", 2 * HOUR + 1),
        Ok(rate(0.95))
    );
    assert_eq!(client.calls, 2);
    assert_eq!(cache.get_at("USD_EUR", 4 * HOUR - 1), Some(rate(0.95)));
}

#[test]
fn error_is_not_cached() {
    let mut cache = RateCache::new(2 * HOUR);
    let mut client = StubClient { calls: 0, asked: Vec::new() };
    let failed = fetch_rate(&mut cache, &mut client, unreachable_service, "USD", "EUR", 0);
    assert_eq!(failed, Err(ApiError::Network("connection refused".to_string())));
    assert_eq!(client.calls, 1);
    assert_eq!(cache.get_at("USD_EUR", 0), None);
    assert_eq!(cache.get_at("USD_EUR", 1), None);
    let retried = fetch_rate(&mut cache, &mut client, quote_092, "USD", "EUR", 2);
    assert_eq!(retried, Ok(rate(0.92)));
    assert_eq!(client.calls, 2);
    assert_eq!(cache.get_at("USD_EUR", 3), Some(rate(0.92)));
    let again = fetch_rate(&mut cache, &mut client, unreachable_service, "USD", "EUR", 4);
    assert_eq!(again, Ok(rate(0.92)));
    assert_eq!(client.calls, 2);
}

#[test]
fn error_leaves_an_older_entry_alone() {
    let mut cache = RateCache::new(100);
    cache.set_at("USD_EUR".to_string(), rate(0.92), 0);
    let result = finish_fetch_at(&mut cache, "USD_EUR".to_string(), HttpReply::Refused(None), 150);
    assert!(matches!(result, Err(ApiError::ApiResponseError(_))));
    assert_eq!(cache.get_at("USD_EUR", 150), None);
    assert_eq!(cache.get_at("USD_EUR", 99), Some(rate(0.92)));
}

#[test]
fn lookups_of_different_pairs_are_separate() {
    let mut cache = RateCache::new(2 * HOUR);
    let mut client = StubClient { calls: 0, asked: Vec::new() };
    assert_eq!(fetch_rate(&mut cache, &mut client, quote_092, "USD", "EUR", 0), Ok(rate(0.92)));
    assert_eq!(fetch_rate(&mut cache, &mut client, quote_095, "USD", "GBP", 0), Ok(rate(0.95)));
    assert_eq!(fetch_rate(&mut cache, &mut client, quote_095, "EUR", "USD", 0), Ok(rate(0.95)));
    assert_eq!(client.calls, 3);
    assert_eq!(client.asked[1], "https://v6.exchangerate-api.com/v6/KEY/pair/USD/GBP");
    assert_eq!(fetch_rate(&mut cache, &mut client, quote_095, "USD", "EUR", 1), Ok(rate(0.92)));
    assert_eq!(client.calls, 3);
}

#[test]
fn two_misses_both_ask_and_the_last_reply_stays() {
    let mut cache = RateCache::new(2 * HOUR);
    let first = begin_fetch_at(&cache, "KEY", "USD", "EUR", 0);
    let second = begin_fetch_at(&cache, "KEY", "USD", "EUR", 0);
    let (first_pair, second_pair) = match (first, second) {
        (FetchStep::Request { pair: a, .. }, FetchStep::Request { pair: b, .. }) => (a, b),
        other => panic!("both lookups should miss: {:?}", other),
    };
    assert_eq!(finish_fetch_at(&mut cache, second_pair, quote(0.95), 5), Ok(rate(0.95)));
    assert_eq!(finish_fetch_at(&mut cache, first_pair, quote(0.92), 6), Ok(rate(0.92)));
    assert_eq!(cache.get_at("USD_EUR", 7), Some(rate(0.92)));
}

#[test]
fn first_step_names_pair_and_url() {
    let cache = RateCache::new(2 * HOUR);
    match begin_fetch_at(&cache, "secret", "USD", "EUR", 0) {
        FetchStep::Request { pair, url } => {
            assert_eq!(pair, "USD_EUR");
            assert_eq!(url, "https://v6.exchangerate-api.com/v6/secret/pair/USD/EUR");
        }
        other => panic!("expected a request, got {:?}", other),
    }
}

#[test]
fn lookup_on_the_real_clock() {
    let mut cache = RateCache::new(2 * HOUR);
    let pair = match begin_fetch(&cache, "KEY", "USD", "EUR") {
        FetchStep::Request { pair, url } => {
            assert_eq!(url, "https://v6.exchangerate-api.com/v6/KEY/pair/USD/EUR");
            pair
        }
        other => panic!("expected a request, got {:?}", other),
    };
    assert_eq!(finish_fetch(&mut cache, pair, quote(0.92)), Ok(rate(0.92)));
    assert!(matches!(begin_fetch(&cache, "KEY", "USD", "EUR"), FetchStep::Cached(r) if r == rate(0.92)));
    assert!(matches!(begin_fetch(&cache, "KEY", "USD", "GBP"), FetchStep::Request { .. }));
    let failed = finish_fetch(&mut cache, "USD_GBP".to_string(), HttpReply::Undecodable("bad json".to_string()));
    assert_eq!(failed, Err(ApiError::ApiResponseError("bad json".to_string())));
    assert_eq!(cache.get("USD_GBP"), None);
}

#[test]
fn pair_reply_meanings() {
    assert_eq!(read_pair_reply(quote(0.92)), Ok(rate(0.92)));
    assert_eq!(
        read_pair_reply(HttpReply::Unreachable("dns failure".to_string())),
        Err(ApiError::Network("dns failure".to_string()))
    );
    assert_eq!(
        read_pair_reply(HttpReply::Undecodable("missing field".to_string())),
        Err(ApiError::ApiResponseError("missing field".to_string()))
    );
    let refused = "Failed to fetch data from the API. One or both of the curriencies are not valid.";
    assert_eq!(
        read_pair_reply(HttpReply::Refused(None)),
        Err(ApiError::ApiResponseError(refused.to_string()))
    );
    assert_eq!(
        read_pair_reply(HttpReply::Refused(Some("{\"result\":\"error\"}".to_string()))),
        Err(ApiError::ApiResponseError(refused.to_string()))
    );
    let failure = HttpReply::Decoded(ConversionRateResponse {
        result: "error".to_string(),
        conversion_rate: rate(0.92),
    });
    assert_eq!(
        read_pair_reply(failure),
        Err(ApiError::ApiResponseError("API responded with an error.".to_string()))
    );
    let wrong_case = HttpReply::Decoded(ConversionRateResponse {
        result: "Success".to_string(),
        conversion_rate: rate(0.92),
    });
    assert!(read_pair_reply(wrong_case).is_err());
}

#[test]
fn table_reply_meanings() {
    let mut rates = HashMap::new();
    rates.insert("EUR".to_string(), rate(0.92));
    rates.insert("GBP".to_string(), rate(0.79));
    let table = read_table_reply(HttpReply::Decoded(ApiResponse {
        result: "success".to_string(),
        conversion_rates: rates.clone(),
    }));
    assert_eq!(table, Ok(rates.clone()));
    let failure = read_table_reply(HttpReply::Decoded(ApiResponse {
        result: "failure".to_string(),
        conversion_rates: rates,
    }));
    assert_eq!(failure, Err(ApiError::ApiResponseError("API responded with an error.".to_string())));
    assert_eq!(
        read_table_reply(HttpReply::Refused(Some("quota reached".to_string()))),
        Err(ApiError::ApiResponseError("quota reached".to_string()))
    );
    assert_eq!(
        read_table_reply(HttpReply::Refused(None)),
        Err(ApiError::ApiResponseError("Unknown error occurred.".to_string()))
    );
    assert_eq!(
        read_table_reply(HttpReply::Unreachable("timed out".to_string())),
        Err(ApiError::Network("timed out".to_string()))
    );
    assert_eq!(
        read_table_reply(HttpReply::Undecodable("not json".to_string())),
        Err(ApiError::ApiResponseError("not json".to_string()))
    );
}

#[test]
fn error_texts() {
    let network = ApiError::Network("timed out".to_string());
    let response = ApiError::ApiResponseError("quota reached".to_string());
    let missing = ApiError::CurrencyNotFound;
    assert_eq!(network.describe(), "Network error: timed out");
    assert_eq!(response.describe(), "API response error: quota reached");
    assert_eq!(missing.describe(), "Currency not found in API response");
    assert_eq!(
        network.user_message(),
        "Failed to reach the currency conversion API. Please check your network connection."
    );
    assert_eq!(response.user_message(), "API Error: quota reached");
    assert_eq!(missing.user_message(), "One or both specified currencies are not supported.");
}

#[test]
fn malformed_body_is_a_response_error_and_is_not_cached() {
    let mut cache = RateCache::new(2 * HOUR);
    let pair = match begin_fetch_at(&cache, "KEY", "USD", "EUR", 0) {
        FetchStep::Request { pair, .. } => pair,
        other => panic!("expected a request, got {:?}", other),
    };
    let result =
        finish_fetch_at(&mut cache, pair, HttpReply::Undecodable("expected value at line 1".to_string()), 0);
    assert_eq!(result, Err(ApiError::ApiResponseError("expected value at line 1".to_string())));
    assert_eq!(cache.get_at("USD_EUR", 0), None);
    assert!(matches!(begin_fetch_at(&cache, "KEY", "USD", "EUR", 1), FetchStep::Request { .. }));
    let error = result.unwrap_err();
    assert_eq!(error.describe(), "API response error: expected value at line 1");
    assert_eq!(error.user_message(), "API Error: expected value at line 1");
}

#[test]
fn success_after_error_on_a_zero_ttl_is_stored_but_never_read_back() {
    let mut cache = RateCache::new(0);
    let failed = finish_fetch_at(&mut cache, "USD_EUR".to_string(), HttpReply::Refused(None), 0);
    assert!(failed.is_err());
    assert_eq!(finish_fetch_at(&mut cache, "USD_EUR".to_string(), quote(0.92), 1), Ok(rate(0.92)));
    assert_eq!(cache.get_at("USD_EUR", 1), None);
    assert!(matches!(begin_fetch_at(&cache, "KEY", "USD", "EUR", 1), FetchStep::Request { .. }));
}

#[test]
fn unexpected_error_sentence() {
    assert_eq!(unexpected_error_message("disk full"), "An unexpected error occurred: disk full");
    assert_eq!(unexpected_error_message(""), "An unexpected error occurred: ");
}
