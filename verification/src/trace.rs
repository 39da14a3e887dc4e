//! Trace events: the event mask handed to `sqlite3_trace_v2` and the
//! reading of what the trace callback receives.

use vstd::prelude::*;
use std::marker::PhantomData;
use std::time::Duration;
use crate::codes;

verus! {

/// The duration `Duration::from_nanos` makes of `nanos` nanoseconds.
pub uninterp spec fn duration_of_nanos(nanos: u64) -> Duration;

/// `Duration::from_nanos`: the duration of `nanos` nanoseconds, a function
/// of `nanos` alone (it never panics).
#[verifier::external_body]
fn duration_from_nanos(nanos: u64) -> (d: Duration)
    ensures
        d == duration_of_nanos(nanos),
{
    Duration::from_nanos(nanos)
}

/// A set of trace event codes.
#[derive(Clone, Copy, Debug, PartialEq, Eq, Structural)]
pub struct TraceEventCodes {
    bits: u32,
}

/// All defined trace event bits.
pub open spec fn all_trace_bits() -> u32 {
    codes::SQLITE_TRACE_STMT | codes::SQLITE_TRACE_PROFILE | codes::SQLITE_TRACE_ROW | codes::SQLITE_TRACE_CLOSE
}

impl TraceEventCodes {
    /// The bits of the set.
    pub closed spec fn spec_bits(&self) -> u32 {
        self.bits
    }

    /// The set of no events.
    pub fn empty() -> (c: Self)
        ensures
            c.spec_bits() == 0,
    {
        TraceEventCodes { bits: 0 }
    }

    /// The set of all events.
    pub fn all() -> (c: Self)
        ensures
            c.spec_bits() == all_trace_bits(),
    {
        TraceEventCodes {
            bits: codes::SQLITE_TRACE_STMT | codes::SQLITE_TRACE_PROFILE | codes::SQLITE_TRACE_ROW
                | codes::SQLITE_TRACE_CLOSE,
        }
    }

    /// The set of the defined events among `bits`; other bits are dropped.
    pub fn from_bits_truncate(bits: u32) -> (c: Self)
        ensures
            c.spec_bits() == bits & all_trace_bits(),
    {
        TraceEventCodes {
            bits: bits & (codes::SQLITE_TRACE_STMT | codes::SQLITE_TRACE_PROFILE | codes::SQLITE_TRACE_ROW
                | codes::SQLITE_TRACE_CLOSE),
        }
    }

    /// The mask handed to `sqlite3_trace_v2`.
    pub fn bits(&self) -> (b: u32)
        ensures
            b == self.spec_bits(),
    {
        self.bits
    }

    /// Whether every event of `other` is in the set.
    pub fn contains(&self, other: Self) -> (b: bool)
        ensures
            b == (self.spec_bits() & other.spec_bits() == other.spec_bits()),
    {
        self.bits & other.bits == other.bits
    }

    /// The events of either set.
    pub fn union(self, other: Self) -> (c: Self)
        ensures
            c.spec_bits() == self.spec_bits() | other.spec_bits(),
    {
        TraceEventCodes { bits: self.bits | other.bits }
    }
}

/// A prepared statement, by its handle.
#[derive(Clone, Copy, Debug, PartialEq, Eq)]
pub struct StmtRef<'s> {
    pub handle: u64,
    pub phantom: PhantomData<&'s ()>,
}

impl<'s> StmtRef<'s> {
    /// The statement with this handle.
    pub fn new(handle: u64) -> (s: Self)
        ensures
            s.handle == handle,
    {
        StmtRef { handle, phantom: PhantomData }
    }
}

/// A database connection, by its handle.
#[derive(Clone, Copy, Debug, PartialEq, Eq)]
pub struct ConnRef<'s> {
    pub handle: u64,
    pub phantom: PhantomData<&'s ()>,
}

impl<'s> ConnRef<'s> {
    /// The connection with this handle.
    pub fn new(handle: u64) -> (c: Self)
        ensures
            c.handle == handle,
    {
        ConnRef { handle, phantom: PhantomData }
    }
}

/// A trace event.
#[non_exhaustive]
#[derive(Debug)]
pub enum TraceEvent<'s> {
    /// A prepared statement begins running, with its SQL text.
    Stmt(StmtRef<'s>, &'s str),
    /// A statement finished, with the time it took.
    Profile(StmtRef<'s>, Duration),
    /// A statement produced a row.
    Row(StmtRef<'s>),
    /// A connection closes.
    Close(ConnRef<'s>),
}

/// The nanoseconds a profile event reports: SQLite's signed count, with a
/// negative count read as zero.
pub open spec fn profile_nanos(ns: i64) -> u64 {
    if ns < 0 { 0 } else { ns as u64 }
}

/// Reads what the trace callback receives: the event code, the statement
/// or connection handle, and the event's argument (the SQL text of a
/// statement event, the nanoseconds of a profile event). Codes SQLite does
/// not define give no event.
pub fn trace_event<'s>(evt: u32, p: u64, sql: &'s str, nanos: i64) -> (e: Option<TraceEvent<'s>>)
    ensures
        evt == codes::SQLITE_TRACE_STMT ==> (e matches Some(TraceEvent::Stmt(s, t)) && s.handle == p && t == sql),
        evt == codes::SQLITE_TRACE_PROFILE ==> (e matches Some(TraceEvent::Profile(s, d)) && s.handle == p
            && d == duration_of_nanos(profile_nanos(nanos))),
        evt == codes::SQLITE_TRACE_ROW ==> (e matches Some(TraceEvent::Row(s)) && s.handle == p),
        evt == codes::SQLITE_TRACE_CLOSE ==> (e matches Some(TraceEvent::Close(c)) && c.handle == p),
        (evt != codes::SQLITE_TRACE_STMT && evt != codes::SQLITE_TRACE_PROFILE && evt != codes::SQLITE_TRACE_ROW
            && evt != codes::SQLITE_TRACE_CLOSE) ==> e is None,
{
    if evt == codes::SQLITE_TRACE_STMT {
        Some(TraceEvent::Stmt(StmtRef::new(p), sql))
    } else if evt == codes::SQLITE_TRACE_PROFILE {
        Some(TraceEvent::Profile(StmtRef::new(p), duration_from_nanos(profile_duration_nanos(nanos))))
    } else if evt == codes::SQLITE_TRACE_ROW {
        Some(TraceEvent::Row(StmtRef::new(p)))
    } else if evt == codes::SQLITE_TRACE_CLOSE {
        Some(TraceEvent::Close(ConnRef::new(p)))
    } else {
        None
    }
}

/// The nanoseconds of a profile event (negative counts read as zero).
pub fn profile_duration_nanos(ns: i64) -> (n: u64)
    ensures
        n == profile_nanos(ns),
{
    if ns < 0 { 0 } else { ns as u64 }
}

} // verus!
