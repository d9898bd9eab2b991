//! The rate cache: one remembered rate per currency pair, each valid for a
//! fixed time window after it was recorded.
//!
//! Time is counted in whole nanoseconds on a monotonic clock. Every operation
//! exists in two forms: one that is told the current time, whose contract is
//! exact, and one that reads the clock itself and then does the same.

use crate::rate::Rate;
use std::time::Duration;
use std::time::Instant;
use vstd::hash_map::StringHashMap;
use vstd::prelude::*;

verus! {

/// The customary time window: two hours, in nanoseconds.
pub const DEFAULT_TTL_NANOS: u128 = 7_200_000_000_000;

/// A point of the standard library's monotonic clock. Nothing inside it is
/// visible to the verifier.
#[verifier::external_type_specification]
#[verifier::external_body]
pub struct ExInstant(Instant);

/// A remembered rate and the clock reading at which it was recorded.
#[derive(Clone, Copy, Debug, PartialEq, Eq, Structural)]
pub struct CacheEntry {
    pub rate: Rate,
    pub recorded_at: u128,
}

/// Time passed between a recording and `now`. A clock reading that lies before
/// the recording counts as no time passed.
pub open spec fn age(recorded_at: u128, now: u128) -> nat {
    if now >= recorded_at {
        (now - recorded_at) as nat
    } else {
        0
    }
}

/// An entry is live while its age is below the time window.
pub open spec fn is_live(entry: CacheEntry, ttl: u128, now: u128) -> bool {
    age(entry.recorded_at, now) < ttl
}

/// What a cache is, mathematically: the stored entries by pair key, and the
/// time window that all of them share.
pub struct CacheState {
    pub entries: Map<Seq<char>, CacheEntry>,
    pub ttl: u128,
}

impl CacheState {
    /// The state of a cache that holds nothing.
    pub open spec fn empty(ttl: u128) -> CacheState {
        CacheState { entries: Map::empty(), ttl }
    }

    /// What a reader sees for `pair` at time `now`: the stored rate if there is
    /// an entry and it is live, nothing otherwise.
    pub open spec fn lookup(self, pair: Seq<char>, now: u128) -> Option<Rate> {
        if self.entries.contains_key(pair) && is_live(self.entries[pair], self.ttl, now) {
            Some(self.entries[pair].rate)
        } else {
            None
        }
    }

    /// The state after `rate` was recorded for `pair` at time `now`: that
    /// entry is new or replaced, every other entry is as it was.
    pub open spec fn record(self, pair: Seq<char>, rate: Rate, now: u128) -> CacheState {
        CacheState {
            entries: self.entries.insert(pair, CacheEntry { rate, recorded_at: now }),
            ttl: self.ttl,
        }
    }
}

/// `std::time::Instant::now`: reads the monotonic clock. Nothing is claimed of
/// the instant that comes back.
#[verifier::external_body]
fn clock_now() -> Instant {
    Instant::now()
}

/// `std::time::Instant::elapsed`: the time on the monotonic clock since
/// `origin`. Nothing is claimed of its length, which depends on when the call
/// is made.
#[verifier::external_body]
fn clock_elapsed(origin: &Instant) -> Duration {
    origin.elapsed()
}

/// `std::time::Duration::as_nanos`: a duration as whole nanoseconds. Nothing is
/// claimed of the number.
#[verifier::external_body]
fn duration_nanos(d: &Duration) -> u128 {
    d.as_nanos()
}

/// A store of exchange rates by pair key. A stored rate is handed out until
/// its age reaches the time window; after that the pair reads as absent,
/// though the entry stays in place until it is overwritten.
pub struct RateCache {
    rates: StringHashMap<CacheEntry>,
    ttl: u128,
    origin: Instant,
}

impl View for RateCache {
    type V = CacheState;

    closed spec fn view(&self) -> CacheState {
        CacheState { entries: self.rates@, ttl: self.ttl }
    }
}

impl RateCache {
    /// An empty cache whose entries live for `ttl` nanoseconds. Its clock
    /// starts at zero now.
    pub fn new(ttl: u128) -> (cache: RateCache)
        ensures
            cache@ == CacheState::empty(ttl),
    {
        RateCache { rates: StringHashMap::new(), ttl, origin: clock_now() }
    }

    /// The time window, in nanoseconds.
    pub fn ttl(&self) -> (ttl: u128)
        ensures
            ttl == self@.ttl,
    {
        self.ttl
    }

    /// The reading of this cache's clock: nanoseconds since it was made.
    pub fn now(&self) -> (now: u128) {
        let elapsed = clock_elapsed(&self.origin);
        duration_nanos(&elapsed)
    }

    /// The rate stored for `pair`, if it is live at time `now`. The cache is
    /// not changed, whether the entry is live or not.
    pub fn get_at(&self, pair: &str, now: u128) -> (found: Option<Rate>)
        ensures
            found == self@.lookup(pair@, now),
    {
        match self.rates.get(pair) {
            Some(entry) => {
                let passed: u128 = if now >= entry.recorded_at {
                    now - entry.recorded_at
                } else {
                    0
                };
                if passed < self.ttl {
                    Some(entry.rate)
                } else {
                    None
                }
            },
            None => None,
        }
    }

    /// Stores `rate` for `pair` as recorded at time `now`, whatever was stored
    /// for that pair before.
    pub fn set_at(&mut self, pair: String, rate: Rate, now: u128)
        ensures
            final(self)@ == old(self)@.record(pair@, rate, now),
    {
        self.rates.insert(pair, CacheEntry { rate, recorded_at: now });
    }

    /// The rate stored for `pair`, if it is live at the current reading of the
    /// clock. What comes back is the lookup at some time: never a rate other
    /// than the stored one, and nothing where no entry exists.
    pub fn get(&self, pair: &str) -> (found: Option<Rate>)
        ensures
            exists|now: u128| found == self@.lookup(pair@, now),
            found matches Some(rate) ==> self@.entries.contains_key(pair@)
                && self@.entries[pair@].rate == rate,
    {
        let now: u128 = self.now();
        let found = self.get_at(pair, now);
        assert(found == self@.lookup(pair@, now));
        found
    }

    /// Stores `rate` for `pair` as recorded at the current reading of the
    /// clock, whatever was stored for that pair before.
    pub fn set(&mut self, pair: String, rate: Rate)
        ensures
            exists|now: u128| final(self)@ == old(self)@.record(pair@, rate, now),
            final(self)@.ttl == old(self)@.ttl,
            final(self)@.entries.dom() == old(self)@.entries.dom().insert(pair@),
            final(self)@.entries[pair@].rate == rate,
            forall|other: Seq<char>|
                other != pair@ && old(self)@.entries.contains_key(other)
                    ==> final(self)@.entries[other] == old(self)@.entries[other],
    {
        let now: u128 = self.now();
        self.set_at(pair, rate, now);
        assert(final(self)@ == old(self)@.record(pair@, rate, now));
    }
}

/// A recorded rate is read back for as long as its age is below the time
/// window: at every such time the lookup of its pair gives exactly that rate.
pub proof fn lemma_recorded_rate_is_read_back(
    state: CacheState,
    pair: Seq<char>,
    rate: Rate,
    at: u128,
    now: u128,
)
    requires
        age(at, now) < state.ttl,
    ensures
        state.record(pair, rate, at).lookup(pair, now) == Some(rate),
{
}

/// A recorded rate expires: once its age has reached the time window the
/// lookup of its pair gives nothing, though the entry is still stored.
pub proof fn lemma_recorded_rate_expires(
    state: CacheState,
    pair: Seq<char>,
    rate: Rate,
    at: u128,
    now: u128,
)
    requires
        age(at, now) >= state.ttl,
    ensures
        state.record(pair, rate, at).lookup(pair, now) is None,
        state.record(pair, rate, at).entries.contains_key(pair),
{
}

/// The last write wins: recording twice for one pair leaves the cache as if
/// only the second recording had happened, so the second rate is read back
/// and the time window runs from the second recording.
pub proof fn lemma_second_record_replaces_first(
    state: CacheState,
    pair: Seq<char>,
    first: Rate,
    first_at: u128,
    second: Rate,
    second_at: u128,
    now: u128,
)
    ensures
        state.record(pair, first, first_at).record(pair, second, second_at) == state.record(
            pair,
            second,
            second_at,
        ),
        state.record(pair, first, first_at).record(pair, second, second_at).lookup(pair, now) == (
        if age(second_at, now) < state.ttl {
            Some(second)
        } else {
            None
        }),
{
    assert(state.entries.insert(pair, CacheEntry { rate: first, recorded_at: first_at }).insert(
        pair,
        CacheEntry { rate: second, recorded_at: second_at },
    ) =~= state.entries.insert(pair, CacheEntry { rate: second, recorded_at: second_at }));
}

/// Pairs do not disturb each other: recording a rate for one pair changes the
/// lookup of no other pair, at any time. A pair that was absent stays absent.
pub proof fn lemma_record_leaves_other_pairs(
    state: CacheState,
    pair: Seq<char>,
    rate: Rate,
    at: u128,
    other: Seq<char>,
    now: u128,
)
    requires
        other != pair,
    ensures
        state.record(pair, rate, at).lookup(other, now) == state.lookup(other, now),
        !state.entries.contains_key(other) ==> state.record(pair, rate, at).lookup(other, now)
            is None,
{
}

/// A cache that was just made holds nothing: every lookup is empty.
pub proof fn lemma_empty_cache_has_no_rate(ttl: u128, pair: Seq<char>, now: u128)
    ensures
        CacheState::empty(ttl).lookup(pair, now) is None,
{
}

} // verus!
