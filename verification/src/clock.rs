//! Timestamp handling for candidate slots. A slot timestamp arrives as a
//! fixed-offset ISO-8601 string; inside the library it is modelled as plain
//! values, an epoch-second reading and a UTC offset. Only the parsing and
//! rendering are done by an outside date-time library, behind the trusted
//! items below; the calendar arithmetic between them is verified.

use vstd::prelude::*;
use chrono::{DateTime, FixedOffset, NaiveDateTime, Utc};
use rand::Rng;

verus! {

/// The instant a slot timestamp string denotes, as epoch seconds paired with
/// its UTC offset in seconds, when the string parses under one of the three
/// accepted layouts; a function of the characters alone.
pub uninterp spec fn slot_instant_of(s: Seq<char>) -> Option<(int, int)>;

/// The ISO-8601 rendering of an instant at a given UTC offset, when the
/// offset and instant are in range; a function of the two numbers alone.
pub uninterp spec fn rfc3339_of(epoch: int, offset: int) -> Option<Seq<char>>;

/// The epoch-second part of a parsed slot timestamp.
pub open spec fn slot_epoch_of(s: Seq<char>) -> Option<int> {
    match slot_instant_of(s) {
        Some(p) => Some(p.0),
        None => None,
    }
}

/// Relies on `chrono::DateTime::parse_from_str` (two offset layouts) with a
/// `chrono::NaiveDateTime::parse_from_str` fallback read at two hours east,
/// then `timestamp` and `offset().local_minus_utc()`: the same string always
/// reads to the same instant.
#[verifier::external_body]
pub(crate) fn parse_slot(s: &str) -> (r: Option<(i64, i32)>)
    ensures
        (r is Some) == (slot_instant_of(s@) is Some),
        r matches Some(p) ==> slot_instant_of(s@) == Some((p.0 as int, p.1 as int)),
{
    let dt = DateTime::parse_from_str(s, "%Y-%m-%dT%H:%M:%S%.f%:z")
        .or_else(|_| DateTime::parse_from_str(s, "%Y-%m-%dT%H:%M:%S%.f%z"))
        .ok()
        .or_else(|| {
            let ndt = NaiveDateTime::parse_from_str(s, "%Y-%m-%dT%H:%M:%S%.f").ok()?;
            let off = FixedOffset::east_opt(2 * 3600)?;
            Some(DateTime::from_naive_utc_and_offset(ndt, off))
        })?;
    Some((dt.timestamp(), dt.offset().local_minus_utc()))
}

/// Relies on `chrono::DateTime::from_timestamp`, `chrono::FixedOffset::east_opt`
/// and `chrono::DateTime::to_rfc3339`: the same instant and offset always
/// render the same string.
#[verifier::external_body]
pub(crate) fn render_rfc3339(epoch: i64, offset: i32) -> (r: Option<String>)
    ensures
        (r is Some) == (rfc3339_of(epoch as int, offset as int) is Some),
        r matches Some(out) ==> rfc3339_of(epoch as int, offset as int) == Some(out@),
{
    let off = FixedOffset::east_opt(offset)?;
    let dt = DateTime::<Utc>::from_timestamp(epoch, 0)?.with_timezone(&off);
    Some(dt.to_rfc3339())
}

/// Relies on `chrono::Utc::now` and `chrono::DateTime::timestamp`. The result
/// is the machine clock's reading and nothing is promised of it.
#[verifier::external_body]
pub(crate) fn now_epoch_seconds() -> i64 {
    Utc::now().timestamp()
}

/// The decoy timestamp derived from a slot: the same instant pushed forward
/// by whole days and re-rendered at the slot's own offset.
pub open spec fn decoy_of(s: Seq<char>, days: int) -> Option<Seq<char>> {
    match slot_instant_of(s) {
        Some(p) => {
            let shifted = p.0 + days * 86400;
            if i64::MIN <= shifted <= i64::MAX {
                rfc3339_of(shifted, p.1)
            } else {
                None
            }
        },
        None => None,
    }
}

/// Renders the harmless out-of-window timestamp used to evict a real hold:
/// the slot's instant shifted forward by `days` whole days.
pub fn decoy_slot(slot: &str, days: u64) -> (r: Option<String>)
    requires
        days <= 100000,
    ensures
        (r is Some) == (decoy_of(slot@, days as int) is Some),
        r matches Some(d) ==> decoy_of(slot@, days as int) == Some(d@),
{
    match parse_slot(slot) {
        Some((epoch, offset)) => {
            let shift: i64 = (days as i64) * 86400;
            match epoch.checked_add(shift) {
                Some(t) => render_rfc3339(t, offset),
                None => None,
            }
        },
        None => None,
    }
}

/// Relies on `rand::Rng::gen_range` over an inclusive range: the draw always
/// lies inside the range, whatever the generator state. The range is never
/// empty, so the call cannot panic.
#[verifier::external_body]
fn jitter_in(lo: u64, hi: u64) -> (r: u64)
    requires
        lo <= hi,
    ensures
        lo <= r <= hi,
{
    rand::thread_rng().gen_range(lo..=hi)
}

/// The page-size parameter sent with an availability query. The randomized
/// draw exists to vary request fingerprints; its range is pinned to a single
/// value, so the rendered parameter is always the same.
pub fn gen_random_limit() -> (r: String)
    ensures
        r@ == crate::text::dec_of(4),
{
    let n = jitter_in(4, 4);
    crate::text::u64_to_string(n)
}

} // verus!
