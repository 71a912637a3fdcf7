//! Canonical event instants: UTC milliseconds, obtained from raw local
//! seconds and a named time zone.
use chrono::TimeZone;
use vstd::prelude::*;

verus! {

/// An event instant, in milliseconds since the Unix epoch (UTC).
#[derive(PartialEq, Eq, Structural, Clone, Copy, Debug, Hash, PartialOrd, Ord)]
pub struct Timestamp {
    pub ts: i64,
}

/// What a local civil time maps to in a time zone.
#[derive(PartialEq, Eq, Structural, Clone, Copy, Debug)]
pub enum LocalMapping {
    /// The zone name is not in the time-zone database.
    UnknownZone,
    /// The seconds value lies outside the representable calendar range.
    OutOfRange,
    /// The local time was skipped by a forward clock change, or removing the
    /// zone's offset leaves the calendar range.
    Gap,
    /// Exactly one instant (in UTC milliseconds).
    Single(i64),
    /// Two instants, during a backward clock change: first the one under the
    /// offset in force before the change (the earlier instant), then the one
    /// under the offset after it.
    Ambiguous(i64, i64),
}

/// Why a raw local time could not be turned into an instant.
#[derive(PartialEq, Eq, Structural, Clone, Copy, Debug)]
pub enum TimeError {
    UnknownZone,
    OutOfRange,
    /// The local time does not exist in the zone (a forward clock change), or
    /// its instant lies outside the calendar range.
    InvalidInstant,
}

/// What the time-zone database says of local seconds `local_secs` in zone `zone`.
pub uninterp spec fn local_mapping(zone: Seq<char>, local_secs: int) -> LocalMapping;

/// Relies on chrono-tz's `Tz::from_str` (zone lookup by IANA name) and
/// chrono's `TimeZone::from_local_datetime` with `timestamp_millis`: the
/// candidate instants of a local date-time, which depend on the zone name and
/// the seconds alone. Of two candidates chrono-tz lists the earlier timespan's
/// first, whose larger offset gives the earlier instant.
#[verifier::external_body]
fn resolve_local(zone: &str, local_secs: i64) -> (r: LocalMapping)
    ensures
        r == local_mapping(zone@, local_secs as int),
        r matches LocalMapping::Ambiguous(a, b) ==> a < b,
{
    let Ok(tz) = zone.parse::<chrono_tz::Tz>() else { return LocalMapping::UnknownZone };
    let Some(utc) = chrono::DateTime::from_timestamp(local_secs, 0) else {
        return LocalMapping::OutOfRange
    };
    match tz.from_local_datetime(&utc.naive_utc()) {
        chrono::LocalResult::None => LocalMapping::Gap,
        chrono::LocalResult::Single(t) => LocalMapping::Single(t.timestamp_millis()),
        chrono::LocalResult::Ambiguous(a, b) => LocalMapping::Ambiguous(
            a.timestamp_millis(),
            b.timestamp_millis(),
        ),
    }
}

/// The instant chosen for a mapping: a gap is an error, and of two candidates
/// the first is taken (the offset in force before the clock change, which
/// gives the earlier instant).
pub open spec fn normalized(m: LocalMapping) -> Result<Timestamp, TimeError> {
    match m {
        LocalMapping::UnknownZone => Err(TimeError::UnknownZone),
        LocalMapping::OutOfRange => Err(TimeError::OutOfRange),
        LocalMapping::Gap => Err(TimeError::InvalidInstant),
        LocalMapping::Single(t) => Ok(Timestamp { ts: t }),
        LocalMapping::Ambiguous(t, _) => Ok(Timestamp { ts: t }),
    }
}

/// The instant of raw local seconds `local_secs` in zone `zone`.
pub open spec fn normalize(local_secs: int, zone: Seq<char>) -> Result<Timestamp, TimeError> {
    normalized(local_mapping(zone, local_secs))
}

impl Timestamp {
    pub fn from_millis(ms: i64) -> (r: Timestamp)
        ensures
            r.ts == ms,
    {
        Timestamp { ts: ms }
    }

    pub fn timestamp_millis(&self) -> (r: i64)
        ensures
            r == self.ts,
    {
        self.ts
    }

    /// Picks the instant for an already resolved local time.
    pub fn from_mapping(m: LocalMapping) -> (r: Result<Timestamp, TimeError>)
        ensures
            r == normalized(m),
    {
        match m {
            LocalMapping::UnknownZone => Err(TimeError::UnknownZone),
            LocalMapping::OutOfRange => Err(TimeError::OutOfRange),
            LocalMapping::Gap => Err(TimeError::InvalidInstant),
            LocalMapping::Single(t) => Ok(Timestamp { ts: t }),
            LocalMapping::Ambiguous(t, _) => Ok(Timestamp { ts: t }),
        }
    }

    /// Converts raw local seconds (no zone attached) in the zone named `zone`
    /// into a UTC instant.
    pub fn from_local(local_secs: i64, zone: &str) -> (r: Result<Timestamp, TimeError>)
        ensures
            r == normalize(local_secs as int, zone@),
            local_mapping(zone@, local_secs as int) == LocalMapping::Gap ==> r == Err::<
                Timestamp,
                TimeError,
            >(TimeError::InvalidInstant),
            local_mapping(zone@, local_secs as int) matches LocalMapping::Ambiguous(a, b) ==> a
                < b && r == Ok::<Timestamp, TimeError>(Timestamp { ts: a }),
    {
        Timestamp::from_mapping(resolve_local(zone, local_secs))
    }
}

/// Conversion is a function of its inputs: equal raw seconds in the same zone
/// give the same outcome, so an ambiguous local time resolves to one instant
/// on every call.
pub proof fn lemma_normalize_deterministic(
    secs1: int,
    zone1: Seq<char>,
    secs2: int,
    zone2: Seq<char>,
)
    requires
        secs1 == secs2,
        zone1 == zone2,
    ensures
        normalize(secs1, zone1) == normalize(secs2, zone2),
        local_mapping(zone1, secs1) is Ambiguous ==> normalize(secs1, zone1) == Ok::<
            Timestamp,
            TimeError,
        >(Timestamp { ts: local_mapping(zone1, secs1)->Ambiguous_0 }),
{
}

/// A local time skipped by a forward clock change is always an error, never
/// an instant.
pub proof fn lemma_gap_is_invalid(secs: int, zone: Seq<char>)
    requires
        local_mapping(zone, secs) == LocalMapping::Gap,
    ensures
        normalize(secs, zone) == Err::<Timestamp, TimeError>(TimeError::InvalidInstant),
{
}

} // verus!
