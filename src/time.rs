//! Points in time and spans of time, held as plain numbers of seconds and
//! nanoseconds since the UNIX epoch.
use vstd::prelude::*;
use vstd::string::*;

use crate::column::{ColumnKind, ColumnType};
use crate::data::{ColumnData, FromDataError};

verus! {

/// Nanoseconds in one second.
pub const NANOS_PER_SEC: u32 = 1_000_000_000;

/// A span of whole seconds.
#[derive(Debug, Clone, Copy, PartialEq, Eq, PartialOrd, Ord, Structural)]
pub struct Duration(pub u64);

impl Duration {
    pub fn new(secs: u64) -> (r: Self)
        ensures
            r.0 == secs,
    {
        Duration(secs)
    }

    pub fn as_secs(&self) -> (r: u64)
        ensures
            r == self.0,
    {
        self.0
    }

    /// The same span as a `std::time::Duration`. Relies on
    /// `std::time::Duration::from_secs`; nothing is stated of the result,
    /// whose type the library cannot look into.
    #[verifier::external_body]
    pub fn into_std(self) -> std::time::Duration {
        std::time::Duration::from_secs(self.0)
    }
}

/// A span of seconds and nanoseconds; the nanoseconds stay below one
/// second.
#[derive(Debug, Clone, Copy, PartialEq, Eq, PartialOrd, Ord, Structural)]
pub struct FullDuration {
    secs: u64,
    nanos: u32,
}

impl FullDuration {
    pub closed spec fn secs_spec(self) -> nat {
        self.secs as nat
    }

    pub closed spec fn nanos_spec(self) -> nat {
        self.nanos as nat
    }

    /// The span in nanoseconds.
    pub open spec fn total_nanos(self) -> nat {
        self.secs_spec() * 1_000_000_000 + self.nanos_spec()
    }

    pub closed spec fn wf(self) -> bool {
        self.nanos < NANOS_PER_SEC
    }

    /// `secs` seconds and `nanos` nanoseconds; whole seconds among the
    /// nanoseconds are carried over into the seconds.
    pub fn new(secs: u64, nanos: u32) -> (r: Self)
        requires
            secs + nanos / 1_000_000_000 <= u64::MAX,
        ensures
            r.wf(),
            r.secs_spec() == secs + nanos / 1_000_000_000,
            r.nanos_spec() == nanos % 1_000_000_000,
    {
        let extra = (nanos / NANOS_PER_SEC) as u64;
        FullDuration { secs: secs + extra, nanos: nanos % NANOS_PER_SEC }
    }

    /// The whole seconds.
    pub fn as_secs(&self) -> (r: u64)
        ensures
            r == self.secs_spec(),
    {
        self.secs
    }

    /// The nanoseconds beyond the whole seconds.
    pub fn subsec_nanos(&self) -> (r: u32)
        ensures
            r == self.nanos_spec(),
    {
        self.nanos
    }
}

proof fn lemma_instant_order(a_s: nat, a_n: nat, b_s: nat, b_n: nat)
    requires
        a_n < 1_000_000_000,
        b_n < 1_000_000_000,
    ensures
        (a_s * 1_000_000_000 + a_n > b_s * 1_000_000_000 + b_n) == (a_s > b_s || (a_s == b_s
            && a_n > b_n)),
{
    if a_s > b_s {
        assert(a_s * 1_000_000_000 >= b_s * 1_000_000_000 + 1_000_000_000) by (nonlinear_arith)
            requires
                a_s > b_s,
        ;
    } else if a_s < b_s {
        assert(b_s * 1_000_000_000 >= a_s * 1_000_000_000 + 1_000_000_000) by (nonlinear_arith)
            requires
                a_s < b_s,
        ;
    }
}

/// A point in time, as seconds and nanoseconds since the UNIX epoch.
#[derive(Debug, Clone, Copy, PartialEq, Eq, Structural)]
pub struct Timeout {
    secs: u64,
    nanos: u32,
}

/// The largest number of seconds since the epoch that a point in time can
/// hold.
pub const MAX_SECS: u64 = 9_223_372_036_854_775_807;

impl Timeout {
    pub closed spec fn secs_spec(self) -> nat {
        self.secs as nat
    }

    pub closed spec fn nanos_spec(self) -> nat {
        self.nanos as nat
    }

    /// Nanoseconds since the epoch.
    pub open spec fn instant(self) -> nat {
        self.secs_spec() * 1_000_000_000 + self.nanos_spec()
    }

    pub closed spec fn wf(self) -> bool {
        &&& self.nanos < NANOS_PER_SEC
        &&& self.secs <= MAX_SECS
    }

    /// The point `secs` seconds after the epoch, if it can be held.
    pub fn from_secs(s: u64) -> (r: Option<Self>)
        ensures
            r is Some <==> s <= MAX_SECS,
            r matches Some(t) ==> t.wf() && t.secs_spec() == s && t.nanos_spec() == 0,
    {
        if s <= MAX_SECS {
            Some(Timeout { secs: s, nanos: 0 })
        } else {
            None
        }
    }

    /// The point `secs` seconds and `nanos` nanoseconds after the epoch.
    pub fn from_parts(secs: u64, nanos: u32) -> (r: Option<Self>)
        ensures
            r is Some <==> secs <= MAX_SECS && nanos < NANOS_PER_SEC,
            r matches Some(t) ==> t.wf() && t.secs_spec() == secs && t.nanos_spec() == nanos,
    {
        if secs <= MAX_SECS && nanos < NANOS_PER_SEC {
            Some(Timeout { secs, nanos })
        } else {
            None
        }
    }

    /// The point `dur` after `now`, if it can be held.
    pub fn new(now: &Timeout, dur: &FullDuration) -> (r: Option<Self>)
        requires
            now.wf(),
            dur.wf(),
        ensures
            r is Some <==> now.secs_spec() + dur.secs_spec() + (now.nanos_spec()
                + dur.nanos_spec()) / 1_000_000_000 <= MAX_SECS,
            r matches Some(t) ==> t.wf() && t.instant() == now.instant() + dur.total_nanos(),
    {
        let nanos = now.nanos + dur.nanos;
        let carry: u64 = if nanos >= NANOS_PER_SEC { 1 } else { 0 };
        let nanos = if nanos >= NANOS_PER_SEC { nanos - NANOS_PER_SEC } else { nanos };
        if dur.secs > MAX_SECS - now.secs || carry > MAX_SECS - now.secs - dur.secs {
            None
        } else {
            Some(Timeout { secs: now.secs + dur.secs + carry, nanos })
        }
    }

    /// Whether `now` is later than this point.
    pub fn has_elapsed(&self, now: &Timeout) -> (r: bool)
        requires
            self.wf(),
            now.wf(),
        ensures
            r == (now.instant() > self.instant()),
    {
        proof {
            lemma_instant_order(
                now.secs as nat,
                now.nanos as nat,
                self.secs as nat,
                self.nanos as nat,
            );
        }
        now.secs > self.secs || (now.secs == self.secs && now.nanos > self.nanos)
    }

    /// The span from `now` to this point, or `None` when this point lies
    /// before `now`.
    pub fn remaining(&self, now: &Timeout) -> (r: Option<FullDuration>)
        requires
            self.wf(),
            now.wf(),
        ensures
            r is Some <==> self.instant() >= now.instant(),
            r matches Some(d) ==> d.wf() && now.instant() + d.total_nanos() == self.instant(),
    {
        if now.secs > self.secs || (now.secs == self.secs && now.nanos > self.nanos) {
            None
        } else if self.nanos >= now.nanos {
            Some(FullDuration { secs: self.secs - now.secs, nanos: self.nanos - now.nanos })
        } else {
            Some(
                FullDuration {
                    secs: self.secs - now.secs - 1,
                    nanos: self.nanos + NANOS_PER_SEC - now.nanos,
                },
            )
        }
    }

    /// The whole seconds since the epoch.
    pub fn as_secs(&self) -> (r: u64)
        ensures
            r == self.secs_spec(),
    {
        self.secs
    }

    /// The nanoseconds beyond the whole seconds.
    pub fn subsec_nanos(&self) -> (r: u32)
        ensures
            r == self.nanos_spec(),
    {
        self.nanos
    }

    /// Points in time are stored as whole seconds in a 64-bit integer.
    pub fn column_kind() -> (r: ColumnKind)
        ensures
            r == ColumnKind::I64,
    {
        ColumnKind::I64
    }

    /// The whole seconds since the epoch; the nanoseconds are dropped.
    pub fn to_data(&self) -> (r: ColumnData<'static>)
        requires
            self.wf(),
        ensures
            r == ColumnData::I64(self.secs_spec() as i64),
    {
        ColumnData::I64(self.secs as i64)
    }

    /// The point that many whole seconds after the epoch.
    pub fn from_data(data: ColumnData) -> (r: Result<Self, FromDataError>)
        ensures
            match data {
                ColumnData::I64(v) => if v >= 0 {
                    r matches Ok(t) && t.wf() && t.secs_spec() == v && t.nanos_spec() == 0
                } else {
                    r matches Err(FromDataError::CustomString(_))
                },
                _ => r == Err::<Timeout, FromDataError>(FromDataError::ExpectedType("expected i64 for u64")),
            },
    {
        match data {
            ColumnData::I64(v) => {
                if v >= 0 {
                    match Timeout::from_secs(v as u64) {
                        Some(t) => Ok(t),
                        None => Err(FromDataError::Custom("timeout to large")),
                    }
                } else {
                    Err(
                        FromDataError::CustomString(
                            String::from_str("out of range integral type conversion attempted"),
                        ),
                    )
                }
            },
            _ => Err(FromDataError::ExpectedType("expected i64 for u64")),
        }
    }
}

/// A calendar date, as days since 1970-01-01.
#[derive(Debug, Clone, Copy, PartialEq, Eq, PartialOrd, Ord, Structural)]
pub struct Date(pub i32);

impl Date {
    pub fn to_days_since_1970(&self) -> (r: i32)
        ensures
            r == self.0,
    {
        self.0
    }

    pub fn from_days_since_1970(days: i32) -> (r: Self)
        ensures
            r.0 == days,
    {
        Date(days)
    }
}

impl ColumnType for Date {
    open spec fn kind_spec() -> ColumnKind {
        ColumnKind::Date
    }

    open spec fn data_spec(&self) -> ColumnData<'static> {
        ColumnData::Date(self.0)
    }

    open spec fn reads_back(data: ColumnData, r: Result<Self, FromDataError>) -> bool {
        r == match data {
            ColumnData::Date(m) => Ok(Date(m)),
            _ => Err(FromDataError::ExpectedType("Date")),
        }
    }

    proof fn lemma_round_trip(x: Self, r: Result<Self, FromDataError>) {
    }

    fn column_kind() -> (r: ColumnKind) {
        ColumnKind::Date
    }

    fn to_data(&self) -> (r: ColumnData<'static>) {
        ColumnData::Date(self.0)
    }

    fn from_data(data: ColumnData) -> (r: Result<Self, FromDataError>) {
        match data {
            ColumnData::Date(m) => Ok(Date(m)),
            _ => Err(FromDataError::ExpectedType("Date")),
        }
    }
}

/// A point in time in UTC, as microseconds since 2000-01-01 00:00:00.
#[derive(Debug, Clone, Copy, PartialEq, Eq, PartialOrd, Ord, Structural)]
pub struct DateTime(pub i64);

impl DateTime {
    pub fn to_microsecs_since_2000(&self) -> (r: i64)
        ensures
            r == self.0,
    {
        self.0
    }

    pub fn from_microsecs_since_2000(micros: i64) -> (r: Self)
        ensures
            r.0 == micros,
    {
        DateTime(micros)
    }
}

impl ColumnType for DateTime {
    open spec fn kind_spec() -> ColumnKind {
        ColumnKind::Timestamp
    }

    open spec fn data_spec(&self) -> ColumnData<'static> {
        ColumnData::Timestamp(self.0)
    }

    open spec fn reads_back(data: ColumnData, r: Result<Self, FromDataError>) -> bool {
        r == match data {
            ColumnData::Timestamp(m) => Ok(DateTime(m)),
            _ => Err(FromDataError::ExpectedType("Timestamp")),
        }
    }

    proof fn lemma_round_trip(x: Self, r: Result<Self, FromDataError>) {
    }

    fn column_kind() -> (r: ColumnKind) {
        ColumnKind::Timestamp
    }

    fn to_data(&self) -> (r: ColumnData<'static>) {
        ColumnData::Timestamp(self.0)
    }

    fn from_data(data: ColumnData) -> (r: Result<Self, FromDataError>) {
        match data {
            ColumnData::Timestamp(m) => Ok(DateTime(m)),
            _ => Err(FromDataError::ExpectedType("Timestamp")),
        }
    }
}

} // verus!
