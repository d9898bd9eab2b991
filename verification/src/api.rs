//! The rate-quote service as the converter sees it: where it is asked, and how
//! a lookup can fail.
//!
//! Nothing here talks to the network: this module names the addresses to ask
//! and the errors that an answer can mean.

use vstd::prelude::*;
use vstd::string::StringExecFns;

verus! {

/// Why a quote could not be had.
#[derive(Debug, PartialEq, Eq)]
pub enum ApiError {
    /// The transport failed on the way to the service or back. Holds the
    /// transport's own description.
    Network(String),
    /// The service was reached, but answered with a status other than success
    /// or with a body that is malformed or not marked a success. Holds a
    /// description.
    ApiResponseError(String),
    /// The answer does not hold the currency that was asked for.
    CurrencyNotFound,
}

/// An [`ApiError`] with its texts as sequences of characters.
pub enum ApiErrorView {
    Network(Seq<char>),
    ApiResponseError(Seq<char>),
    CurrencyNotFound,
}

impl View for ApiError {
    type V = ApiErrorView;

    open spec fn view(&self) -> ApiErrorView {
        match self {
            ApiError::Network(text) => ApiErrorView::Network(text@),
            ApiError::ApiResponseError(text) => ApiErrorView::ApiResponseError(text@),
            ApiError::CurrencyNotFound => ApiErrorView::CurrencyNotFound,
        }
    }
}

impl ApiErrorView {
    /// The error as one line of text.
    pub open spec fn description(self) -> Seq<char> {
        match self {
            ApiErrorView::Network(text) => "Network error: "@ + text,
            ApiErrorView::ApiResponseError(text) => "API response error: "@ + text,
            ApiErrorView::CurrencyNotFound => "Currency not found in API response"@,
        }
    }

    /// What a person at the terminal is told: one fixed sentence for a
    /// connection problem, one for a missing currency, and the service's own
    /// words after a fixed prefix where it answered with an error.
    pub open spec fn user_message(self) -> Seq<char> {
        match self {
            ApiErrorView::Network(_) =>
                "Failed to reach the currency conversion API. Please check your network connection."@,
            ApiErrorView::ApiResponseError(text) => "API Error: "@ + text,
            ApiErrorView::CurrencyNotFound =>
                "One or both specified currencies are not supported."@,
        }
    }
}

impl ApiError {
    /// The error as one line of text.
    pub fn describe(&self) -> (text: String)
        ensures
            text@ == self@.description(),
    {
        match self {
            ApiError::Network(cause) => {
                let mut text = String::from_str("Network error: ");
                text.append(cause.as_str());
                text
            },
            ApiError::ApiResponseError(cause) => {
                let mut text = String::from_str("API response error: ");
                text.append(cause.as_str());
                text
            },
            ApiError::CurrencyNotFound => String::from_str("Currency not found in API response"),
        }
    }

    /// What a person at the terminal is told about this error.
    pub fn user_message(&self) -> (text: String)
        ensures
            text@ == self@.user_message(),
    {
        match self {
            ApiError::Network(_) => String::from_str(
                "Failed to reach the currency conversion API. Please check your network connection.",
            ),
            ApiError::ApiResponseError(cause) => {
                let mut text = String::from_str("API Error: ");
                text.append(cause.as_str());
                text
            },
            ApiError::CurrencyNotFound => String::from_str(
                "One or both specified currencies are not supported.",
            ),
        }
    }
}

/// What a person at the terminal is told about an error of another origin
/// than the lookup: a fixed prefix, then the error's own description.
pub open spec fn unexpected_error_text(description: Seq<char>) -> Seq<char> {
    "An unexpected error occurred: "@ + description
}

/// The sentence for an error that is none of the lookup's own.
pub fn unexpected_error_message(description: &str) -> (text: String)
    ensures
        text@ == unexpected_error_text(description@),
{
    let mut text = String::from_str("An unexpected error occurred: ");
    text.append(description);
    text
}

/// The key under which the rate from `source` to `target` is cached: the two
/// codes as given, joined by an underscore. Case is kept as it came.
pub open spec fn pair_key_of(source: Seq<char>, target: Seq<char>) -> Seq<char> {
    source + "_"@ + target
}

/// The address that quotes one unit of `source` in `target`.
pub open spec fn pair_url_of(api_key: Seq<char>, source: Seq<char>, target: Seq<char>) -> Seq<
    char,
> {
    "https://v6.exchangerate-api.com/v6/"@ + api_key + "/pair/"@ + source + "/"@ + target
}

/// The address that quotes every currency against `base`.
pub open spec fn latest_url_of(api_key: Seq<char>, base: Seq<char>) -> Seq<char> {
    "https://v6.exchangerate-api.com/v6/"@ + api_key + "/latest/"@ + base
}

/// The cache key of a currency pair.
pub fn pair_key(source: &str, target: &str) -> (key: String)
    ensures
        key@ == pair_key_of(source@, target@),
{
    let mut key = String::from_str(source);
    key.append("_");
    key.append(target);
    key
}

/// The address to ask for the rate from `source` to `target`.
pub fn pair_url(api_key: &str, source: &str, target: &str) -> (url: String)
    ensures
        url@ == pair_url_of(api_key@, source@, target@),
{
    let mut url = String::from_str("https://v6.exchangerate-api.com/v6/");
    url.append(api_key);
    url.append("/pair/");
    url.append(source);
    url.append("/");
    url.append(target);
    url
}

/// The address to ask for the whole rate table of `base`.
pub fn latest_url(api_key: &str, base: &str) -> (url: String)
    ensures
        url@ == latest_url_of(api_key@, base@),
{
    let mut url = String::from_str("https://v6.exchangerate-api.com/v6/");
    url.append(api_key);
    url.append("/latest/");
    url.append(base);
    url
}

/// Two errors are of one kind: both of the connection, both of the service's
/// answer, or both of a missing currency.
pub open spec fn same_kind(a: ApiErrorView, b: ApiErrorView) -> bool {
    match (a, b) {
        (ApiErrorView::Network(_), ApiErrorView::Network(_)) => true,
        (ApiErrorView::ApiResponseError(_), ApiErrorView::ApiResponseError(_)) => true,
        (ApiErrorView::CurrencyNotFound, ApiErrorView::CurrencyNotFound) => true,
        _ => false,
    }
}

/// The texts tell the kinds of error apart: errors of different kinds never
/// share a description, nor a message for the person at the terminal,
/// whatever texts they carry.
pub proof fn lemma_texts_tell_kinds_apart(a: ApiErrorView, b: ApiErrorView)
    requires
        !same_kind(a, b),
    ensures
        a.description() != b.description(),
        a.user_message() != b.user_message(),
{
    lemma_first_characters(a);
    lemma_first_characters(b);
}

/// Each kind of error has its own first character, in both of its texts.
proof fn lemma_first_characters(e: ApiErrorView)
    ensures
        e.description().len() > 0,
        e.user_message().len() > 0,
        e.description()[0] == (match e {
            ApiErrorView::Network(_) => 'N',
            ApiErrorView::ApiResponseError(_) => 'A',
            ApiErrorView::CurrencyNotFound => 'C',
        }),
        e.user_message()[0] == (match e {
            ApiErrorView::Network(_) => 'F',
            ApiErrorView::ApiResponseError(_) => 'A',
            ApiErrorView::CurrencyNotFound => 'O',
        }),
{
    reveal_strlit("Network error: ");
    reveal_strlit("API response error: ");
    reveal_strlit("Currency not found in API response");
    reveal_strlit(
        "Failed to reach the currency conversion API. Please check your network connection.",
    );
    reveal_strlit("API Error: ");
    reveal_strlit("One or both specified currencies are not supported.");
}

/// A currency code holds no underscore.
pub open spec fn no_underscore(code: Seq<char>) -> bool {
    forall|i: int| 0 <= i < code.len() ==> code[i] != '_'
}

/// The key tells pairs apart: where the source codes hold no underscore, two
/// pairs with one key are the same pair. So no two such pairs share a cache
/// entry.
pub proof fn lemma_pair_key_tells_pairs_apart(
    source: Seq<char>,
    target: Seq<char>,
    other_source: Seq<char>,
    other_target: Seq<char>,
)
    requires
        no_underscore(source),
        no_underscore(other_source),
        pair_key_of(source, target) == pair_key_of(other_source, other_target),
    ensures
        source == other_source,
        target == other_target,
{
    reveal_strlit("_");
    let key = pair_key_of(source, target);
    let other_key = pair_key_of(other_source, other_target);
    assert(key.len() == source.len() + 1 + target.len());
    assert(other_key.len() == other_source.len() + 1 + other_target.len());
    assert(key[source.len() as int] == '_');
    assert(other_key[other_source.len() as int] == '_');
    if source.len() < other_source.len() {
        assert(other_key[source.len() as int] == other_source[source.len() as int]);
        assert(false);
    }
    if other_source.len() < source.len() {
        assert(key[other_source.len() as int] == source[other_source.len() as int]);
        assert(false);
    }
    assert forall|i: int| 0 <= i < source.len() implies source[i] == other_source[i] by {
        assert(key[i] == source[i]);
        assert(other_key[i] == other_source[i]);
    }
    assert(source =~= other_source);
    assert forall|j: int| 0 <= j < target.len() implies target[j] == other_target[j] by {
        assert(key[source.len() + 1 + j] == target[j]);
        assert(other_key[other_source.len() + 1 + j] == other_target[j]);
    }
    assert(target =~= other_target);
}

} // verus!
