//! # State
//!
//! State persisted between the steps of a multi-step request, with the time
//! at which it expires.

use vstd::prelude::*;

verus! {

/// Nanoseconds in a second.
pub const NANOS_PER_SEC: u32 = 1_000_000_000;

/// The earliest instant that `chrono::DateTime<Utc>` holds, in seconds from
/// the Unix epoch: the start of January 1 of the year -262143.
pub const MIN_TIMESTAMP_SECS: i64 = -8_334_601_228_800;

/// The last second that `chrono::DateTime<Utc>` holds, in seconds from the
/// Unix epoch: the last second of December 31 of the year 262142.
pub const MAX_TIMESTAMP_SECS: i64 = 8_210_266_876_799;

/// An instant in UTC: whole seconds since the Unix epoch and the
/// nanoseconds past that second (no leap seconds).
#[derive(Clone, Copy, Debug, PartialEq, Eq)]
pub struct UtcTimestamp {
    secs: i64,
    nanos: u32,
}

impl UtcTimestamp {
    /// The seconds are in range and the nanoseconds below one second.
    #[verifier::type_invariant]
    pub closed spec fn wf(self) -> bool {
        &&& MIN_TIMESTAMP_SECS <= self.secs <= MAX_TIMESTAMP_SECS
        &&& self.nanos < NANOS_PER_SEC
    }

    /// Whole seconds since the Unix epoch.
    pub closed spec fn spec_secs(self) -> i64 {
        self.secs
    }

    /// Nanoseconds past the whole second.
    pub closed spec fn spec_nanos(self) -> u32 {
        self.nanos
    }

    /// The instant as nanoseconds since the Unix epoch.
    pub open spec fn total_nanos(self) -> int {
        self.spec_secs() * NANOS_PER_SEC + self.spec_nanos()
    }

    /// Whether `secs` and `nanos` make an instant that a `UtcTimestamp` holds.
    pub open spec fn valid(secs: i64, nanos: u32) -> bool {
        MIN_TIMESTAMP_SECS <= secs <= MAX_TIMESTAMP_SECS && nanos < NANOS_PER_SEC
    }

    /// The instant `secs` seconds and `nanos` nanoseconds after the Unix
    /// epoch, or `None` when it is out of range or `nanos` is a second or
    /// more.
    pub fn new(secs: i64, nanos: u32) -> (t: Option<UtcTimestamp>)
        ensures
            t is Some <==> Self::valid(secs, nanos),
            t matches Some(t) ==> t.spec_secs() == secs && t.spec_nanos() == nanos,
    {
        if MIN_TIMESTAMP_SECS <= secs && secs <= MAX_TIMESTAMP_SECS && nanos < NANOS_PER_SEC {
            Some(UtcTimestamp { secs, nanos })
        } else {
            None
        }
    }

    /// Whole seconds since the Unix epoch.
    pub fn secs(&self) -> (secs: i64)
        ensures
            secs == self.spec_secs(),
            Self::valid(self.spec_secs(), self.spec_nanos()),
    {
        proof {
            use_type_invariant(self);
        }
        self.secs
    }

    /// Nanoseconds past the whole second.
    pub fn nanos(&self) -> (nanos: u32)
        ensures
            nanos == self.spec_nanos(),
    {
        self.nanos
    }

    /// The current time, which is never before the Unix epoch.
    pub fn now() -> (t: UtcTimestamp)
        ensures
            Self::valid(t.spec_secs(), t.spec_nanos()),
            t.spec_secs() >= 0,
    {
        let (secs, nanos) = utc_now();
        UtcTimestamp { secs, nanos }
    }
}

/// Calls `chrono::Utc::now` and takes its `timestamp` and
/// `timestamp_subsec_nanos`. The result depends on the clock; of every
/// outcome it is stated that it is a valid instant at or after the Unix
/// epoch: `Utc::now` panics on a system time before the epoch, builds its
/// value with `DateTime::from_timestamp` (no leap second, so nanoseconds
/// below one second) and panics where that is out of chrono's range.
#[verifier::external_body]
fn utc_now() -> (now: (i64, u32))
    ensures
        UtcTimestamp::valid(now.0, now.1),
        now.0 >= 0,
{
    let now = chrono::Utc::now();
    (now.timestamp(), now.timestamp_subsec_nanos())
}

/// A duration of `nanos` nanoseconds in whole seconds, truncated toward
/// zero.
pub open spec fn whole_seconds(nanos: int) -> int {
    if nanos >= 0 {
        nanos / (NANOS_PER_SEC as int)
    } else {
        -((-nanos) / (NANOS_PER_SEC as int))
    }
}

/// Calls `chrono::DateTime::<Utc>::signed_duration_since` on the two
/// instants (made with `DateTime::from_timestamp`, which accepts every
/// valid `UtcTimestamp`) and then `TimeDelta::num_seconds`: the exact
/// difference, in whole seconds truncated toward zero.
#[verifier::external_body]
fn seconds_since(later: UtcTimestamp, earlier: UtcTimestamp) -> (secs: i64)
    requires
        UtcTimestamp::valid(later.spec_secs(), later.spec_nanos()),
        UtcTimestamp::valid(earlier.spec_secs(), earlier.spec_nanos()),
    ensures
        secs == whole_seconds(later.total_nanos() - earlier.total_nanos()),
{
    let later = chrono::DateTime::from_timestamp(later.secs, later.nanos).unwrap();
    let earlier = chrono::DateTime::from_timestamp(earlier.secs, earlier.nanos).unwrap();
    later.signed_duration_since(earlier).num_seconds()
}

/// State is used to persist request information between issuance steps in
/// the credential issuance process.
#[derive(Clone, Debug, PartialEq, Eq)]
pub struct State<T> {
    /// Body holds data relevant to the current state.
    pub body: T,
    /// Time state should expire.
    pub expires_at: UtcTimestamp,
}

/// State that expires at `expires_at` has expired at `now` when the whole
/// number of seconds from `now` to `expires_at` is negative.
pub open spec fn expired(expires_at: UtcTimestamp, now: UtcTimestamp) -> bool {
    whole_seconds(expires_at.total_nanos() - now.total_nanos()) < 0
}

impl<T> State<T> {
    /// State holding `body` that expires at `expires_at`.
    pub fn expiring_at(body: T, expires_at: UtcTimestamp) -> (state: Self)
        ensures
            state.body == body,
            state.expires_at == expires_at,
    {
        State { body, expires_at }
    }

    /// Determines whether the state has expired at the time `now`.
    pub fn is_expired_at(&self, now: UtcTimestamp) -> (is_expired: bool)
        ensures
            is_expired == expired(self.expires_at, now),
    {
        proof {
            use_type_invariant(self.expires_at);
            use_type_invariant(now);
        }
        seconds_since(self.expires_at, now) < 0
    }

    /// Determines whether state has expired or not, at the current time.
    pub fn is_expired(&self) -> (is_expired: bool)
        ensures
            exists|now: UtcTimestamp|
                {
                    &&& UtcTimestamp::valid(now.spec_secs(), now.spec_nanos())
                    &&& now.spec_secs() >= 0
                    &&& is_expired == expired(self.expires_at, now)
                },
    {
        let now = UtcTimestamp::now();
        self.is_expired_at(now)
    }
}

impl<T> From<T> for State<T> {
    /// State holding `body` that expires now.
    fn from(body: T) -> (state: Self)
        ensures
            state.body == body,
            state.expires_at.spec_secs() >= 0,
    {
        State::expiring_at(body, UtcTimestamp::now())
    }
}

impl<T> vstd::std_specs::convert::FromSpecImpl<T> for State<T> {
    open spec fn obeys_from_spec() -> bool {
        false
    }

    open spec fn from_spec(body: T) -> Self {
        vstd::pervasive::arbitrary()
    }
}

/// State has expired exactly when the time is at least one whole second
/// past its expiry.
pub proof fn lemma_expired_after_one_second(expires_at: UtcTimestamp, now: UtcTimestamp)
    ensures
        expired(expires_at, now) <==> now.total_nanos() - expires_at.total_nanos() >= NANOS_PER_SEC,
{
}

/// Once state has expired it stays expired: at any later time it has
/// expired too.
pub proof fn lemma_expired_stays_expired(
    expires_at: UtcTimestamp,
    now: UtcTimestamp,
    later: UtcTimestamp,
)
    requires
        expired(expires_at, now),
        now.total_nanos() <= later.total_nanos(),
    ensures
        expired(expires_at, later),
{
    lemma_expired_after_one_second(expires_at, now);
    lemma_expired_after_one_second(expires_at, later);
}

} // verus!
