//! Points in time, as the UTC timestamps that chrono accepts, and their
//! rendering in replies.

use vstd::prelude::*;
use chrono::{DateTime, Utc};
use std::time::{SystemTime, UNIX_EPOCH};

verus! {

/// Whether `DateTime::<Utc>::from_timestamp(secs, nanos)` returns `Some`:
/// the seconds lie in chrono's date range and the nanoseconds are valid.
pub uninterp spec fn chrono_accepts(secs: i64, nanos: u32) -> bool;

/// What chrono's `Display` of `DateTime::<Utc>::from_timestamp(secs, nanos)`
/// writes, such as `2015-05-15 00:00:00 UTC`.
pub uninterp spec fn chrono_utc_text(secs: i64, nanos: u32) -> Seq<char>;

/// `DateTime::<Utc>::from_timestamp(secs, nanos).is_some()`.
#[verifier::external_body]
fn chrono_accepts_exec(secs: i64, nanos: u32) -> (r: bool)
    ensures
        r == chrono_accepts(secs, nanos),
{
    DateTime::<Utc>::from_timestamp(secs, nanos).is_some()
}

/// `SystemTime::now().duration_since(UNIX_EPOCH)`: the whole seconds and
/// the nanoseconds past them since the UNIX epoch, or `None` when the clock
/// reads before it. What comes back is up to the clock, so nothing is
/// promised of it.
#[verifier::external_body]
fn since_unix_epoch() -> (r: Option<(u64, u32)>)
{
    match SystemTime::now().duration_since(UNIX_EPOCH) {
        Ok(d) => Some((d.as_secs(), d.subsec_nanos())),
        Err(_) => None,
    }
}

/// The `Display` text of the UTC date and time with these parts.
#[verifier::external_body]
fn chrono_utc_text_exec(secs: i64, nanos: u32) -> (r: String)
    requires
        chrono_accepts(secs, nanos),
    ensures
        r@ == chrono_utc_text(secs, nanos),
{
    DateTime::<Utc>::from_timestamp(secs, nanos).unwrap().to_string()
}

/// A UTC instant that chrono can represent: whole seconds since the UNIX
/// epoch and the nanoseconds past them.
#[derive(Debug, Clone, Copy, PartialEq, Eq)]
pub struct Timestamp {
    secs: i64,
    nanos: u32,
}

impl Timestamp {
    #[verifier::type_invariant]
    spec fn accepted(self) -> bool {
        chrono_accepts(self.secs, self.nanos)
    }

    /// Seconds since the UNIX epoch.
    pub closed spec fn unix_secs(self) -> i64 {
        self.secs
    }

    /// Nanoseconds past `unix_secs`.
    pub closed spec fn sub_nanos(self) -> u32 {
        self.nanos
    }

    /// The current instant, as chrono reads the system clock: `None` when
    /// the clock reads before the UNIX epoch or past what chrono can hold.
    pub fn now() -> (t: Option<Timestamp>)
        ensures
            t matches Some(t) ==> chrono_accepts(t.unix_secs(), t.sub_nanos()),
    {
        match since_unix_epoch() {
            Some((secs, nanos)) => {
                if secs > i64::MAX as u64 {
                    None
                } else {
                    Timestamp::from_unix(secs as i64, nanos)
                }
            },
            None => None,
        }
    }

    /// The instant with these parts, if chrono accepts them.
    pub fn from_unix(secs: i64, nanos: u32) -> (t: Option<Timestamp>)
        ensures
            t is Some <==> chrono_accepts(secs, nanos),
            t matches Some(t) ==> t.unix_secs() == secs && t.sub_nanos() == nanos,
    {
        if chrono_accepts_exec(secs, nanos) {
            Some(Timestamp { secs, nanos })
        } else {
            None
        }
    }

    /// Seconds since the UNIX epoch.
    pub fn secs(&self) -> (s: i64)
        ensures
            s == self.unix_secs(),
    {
        self.secs
    }

    /// Nanoseconds past `secs`.
    pub fn nanos(&self) -> (n: u32)
        ensures
            n == self.sub_nanos(),
    {
        self.nanos
    }

    /// The instant as chrono displays it.
    pub fn text(&self) -> (s: String)
        ensures
            s@ == timestamp_text(*self),
    {
        proof {
            use_type_invariant(self);
        }
        chrono_utc_text_exec(self.secs, self.nanos)
    }
}

/// The text of an instant in replies.
pub open spec fn timestamp_text(t: Timestamp) -> Seq<char> {
    chrono_utc_text(t.unix_secs(), t.sub_nanos())
}

} // verus!
