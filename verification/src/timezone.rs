//! Trusted boundary to the chrono and chrono-tz crates: capture of the
//! wall-clock instant, timezone lookup, conversion of the instant, and
//! extraction of wall-clock fields.
//!
//! The captured instant itself is opaque; everything the library reasons
//! about is extracted here as plain bounded integers.

use vstd::prelude::*;

verus! {

#[verifier::external_type_specification]
#[verifier::external_body]
pub struct ExTz(chrono_tz::Tz);

/// The single point in time read once at program start and reused for all
/// per-city conversions. Opaque: the library reads it only through the
/// trusted accessors below.
#[verifier::external_body]
pub struct CapturedInstant {
    inner: chrono::DateTime<chrono::Local>,
}

/// The same instant viewed in one city's timezone. Opaque as well.
#[verifier::external_body]
pub struct ZonedInstant {
    inner: chrono::DateTime<chrono_tz::Tz>,
}

/// Whether chrono-tz recognises a timezone identifier. The parse is a pure
/// function of the name against the IANA table compiled into the crate.
pub uninterp spec fn tz_known(name: Seq<char>) -> bool;

/// Relies on chrono::Local::now: captures the current local wall-clock
/// time. The result depends on the clock, so nothing is claimed of it.
#[verifier::external_body]
pub fn now_local() -> CapturedInstant {
    CapturedInstant { inner: chrono::Local::now() }
}

/// Relies on chrono_tz::Tz::from_str: looks the identifier up in the
/// compiled-in IANA table, succeeding exactly on the known names.
#[verifier::external_body]
pub(crate) fn parse_timezone(name: &str) -> (r: Option<chrono_tz::Tz>)
    ensures
        r is Some <==> tz_known(name@),
{
    name.parse::<chrono_tz::Tz>().ok()
}

/// Relies on chrono::DateTime::with_timezone: views the same instant in
/// the given timezone.
#[verifier::external_body]
pub(crate) fn in_timezone(dt: &CapturedInstant, tz: &chrono_tz::Tz) -> ZonedInstant {
    ZonedInstant { inner: dt.inner.with_timezone(tz) }
}

/// Relies on chrono::Timelike::hour: the hour number is in 0..=23.
#[verifier::external_body]
pub(crate) fn hour_of(dt: &ZonedInstant) -> (r: u8)
    ensures
        r < 24,
{
    chrono::Timelike::hour(&dt.inner) as u8
}

/// Relies on chrono::Timelike::minute: the minute number is in 0..=59.
#[verifier::external_body]
pub(crate) fn minute_of(dt: &ZonedInstant) -> (r: u8)
    ensures
        r < 60,
{
    chrono::Timelike::minute(&dt.inner) as u8
}

/// Relies on chrono::Timelike::hour on the local instant: in 0..=23.
#[verifier::external_body]
pub(crate) fn local_hour(dt: &CapturedInstant) -> (r: u8)
    ensures
        r < 24,
{
    chrono::Timelike::hour(&dt.inner) as u8
}

/// Relies on chrono::Timelike::minute on the local instant: in 0..=59.
#[verifier::external_body]
pub(crate) fn local_minute(dt: &CapturedInstant) -> (r: u8)
    ensures
        r < 60,
{
    chrono::Timelike::minute(&dt.inner) as u8
}

/// Relies on chrono::DateTime::to_rfc2822: formats the instant as an
/// RFC 2822 timestamp. The text depends on the opaque instant, so nothing
/// is claimed of it.
#[verifier::external_body]
pub(crate) fn rfc2822_of(dt: &CapturedInstant) -> String {
    dt.inner.to_rfc2822()
}

} // verus!
