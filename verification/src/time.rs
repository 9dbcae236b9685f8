//! Points in time and the distances between them.

use vstd::prelude::*;

verus! {

/// Nanoseconds in one second.
pub const NANOS_PER_SEC: u64 = 1_000_000_000;

/// The first second of the calendar's range (the year -262143).
pub const MIN_TIMESTAMP_SECS: i64 = -8_334_601_228_800;

/// The last second of the calendar's range (the year 262142).
pub const MAX_TIMESTAMP_SECS: i64 = 8_210_266_876_799;

/// A point in time, counted from the Unix epoch, to the nanosecond. It always
/// lies within the calendar's range and is never inside a leap second.
#[derive(Clone, Copy, PartialEq, Eq, Debug, Structural)]
pub struct Timestamp {
    secs: i64,
    nanos: u32,
}

impl View for Timestamp {
    type V = int;

    /// Nanoseconds since the Unix epoch.
    closed spec fn view(&self) -> int {
        self.secs * NANOS_PER_SEC + self.nanos
    }
}

/// A distance of `nanos` nanoseconds in whole seconds, rounded towards zero.
pub open spec fn whole_seconds(nanos: int) -> int {
    if nanos >= 0 {
        nanos / (NANOS_PER_SEC as int)
    } else {
        -((-nanos) / (NANOS_PER_SEC as int))
    }
}

/// A non-negative distance as it is, a negative one as zero.
pub open spec fn clamped(nanos: int) -> int {
    if nanos < 0 { 0 } else { nanos }
}

/// The point so many seconds and nanoseconds after the Unix epoch, in nanoseconds.
pub open spec fn point_at(secs: int, nanos: int) -> int {
    secs * NANOS_PER_SEC + nanos
}

/// The calendar has this second, and the second this nanosecond.
pub open spec fn in_calendar(secs: int, nanos: int) -> bool {
    MIN_TIMESTAMP_SECS <= secs <= MAX_TIMESTAMP_SECS && nanos < NANOS_PER_SEC
}

/// The second that a point lies in.
pub open spec fn second_of(point: int) -> int {
    point / (NANOS_PER_SEC as int)
}

/// The nanoseconds from the beginning of its second to a point.
pub open spec fn nanos_into(point: int) -> int {
    point % (NANOS_PER_SEC as int)
}

/// A point comes before another.
pub open spec fn comes_before(a: int, b: int) -> bool {
    a < b
}

/// A point lies at least so many seconds behind an earlier one.
pub open spec fn lies_behind(later: int, earlier: int, secs: int) -> bool {
    later - earlier >= secs * NANOS_PER_SEC
}

/// A point is told by its second and the nanoseconds into it, and by nothing else. A billion
/// nanoseconds make a second.
pub proof fn points_are_told_by_second_and_nanosecond(secs: int, nanos: int)
    requires
        0 <= nanos < 1_000_000_000,
    ensures
        second_of(point_at(secs, nanos)) == secs,
        nanos_into(point_at(secs, nanos)) == nanos,
        point_at(secs, nanos) == secs * 1_000_000_000 + nanos,
        in_calendar(0, nanos),
        in_calendar(secs, nanos) <==> -8_334_601_228_800 <= secs <= 8_210_266_876_799,
        !in_calendar(secs, 1_000_000_000),
{
}

/// No point comes before itself, of two others one comes first, and a point that comes
/// before another comes before whatever that one comes before.
pub proof fn points_come_one_after_the_other(a: int, b: int, c: int)
    ensures
        !comes_before(a, a),
        comes_before(a, a + 1),
        a != b ==> (comes_before(a, b) <==> !comes_before(b, a)),
        comes_before(a, b) && comes_before(b, c) ==> comes_before(a, c),
{
}

/// Distances are counted in whole seconds that have passed: a second that has not passed in
/// full does not count, in either direction. What lies so many seconds behind has that
/// distance, and a distance backwards is none.
pub proof fn only_whole_seconds_count(n: int, rest: int, later: int, earlier: int)
    requires
        0 <= n,
        0 <= rest < 1_000_000_000,
    ensures
        whole_seconds(n * 1_000_000_000 + rest) == n,
        whole_seconds(-(n * 1_000_000_000 + rest)) == -n,
        lies_behind(later, earlier, n) && n > 0 <==> n > 0 && whole_seconds(later - earlier) >= n,
        lies_behind(later, earlier, 0) <==> later >= earlier,
        clamped(n) == n && clamped(-n) == 0,
        later >= earlier ==> clamped(later - earlier) == later - earlier,
{
}

/// `chrono::DateTime::signed_duration_since` on two points in time given as
/// seconds since the epoch and nanoseconds into the second, read with
/// `TimeDelta::num_seconds` and `TimeDelta::subsec_nanos`: the seconds and the
/// nanoseconds left over add up to the exact distance, are never of opposite
/// sign, and the nanoseconds stay below one second.
#[verifier::external_body]
fn chrono_distance(secs: i64, nanos: u32, since_secs: i64, since_nanos: u32) -> (r: (i64, i32))
    requires
        MIN_TIMESTAMP_SECS <= secs <= MAX_TIMESTAMP_SECS,
        MIN_TIMESTAMP_SECS <= since_secs <= MAX_TIMESTAMP_SECS,
        nanos < NANOS_PER_SEC,
        since_nanos < NANOS_PER_SEC,
    ensures
        r.0 * NANOS_PER_SEC + r.1 == (secs - since_secs) * NANOS_PER_SEC + nanos - since_nanos,
        -NANOS_PER_SEC < r.1 < NANOS_PER_SEC,
        r.0 > 0 ==> r.1 >= 0,
        r.0 < 0 ==> r.1 <= 0,
{
    let a = chrono::DateTime::from_timestamp(secs, nanos).unwrap();
    let b = chrono::DateTime::from_timestamp(since_secs, since_nanos).unwrap();
    let d = a.signed_duration_since(b);
    (d.num_seconds(), d.subsec_nanos())
}

impl Timestamp {
    #[verifier::type_invariant]
    spec fn in_range(self) -> bool {
        MIN_TIMESTAMP_SECS <= self.secs <= MAX_TIMESTAMP_SECS && self.nanos < NANOS_PER_SEC
    }

    /// The point `secs` seconds and `nanos` nanoseconds after the Unix epoch,
    /// where the calendar has it.
    pub fn new(secs: i64, nanos: u32) -> (r: Option<Timestamp>)
        ensures
            r is Some <==> in_calendar(secs as int, nanos as int),
            r matches Some(t) ==> t@ == point_at(secs as int, nanos as int),
    {
        if MIN_TIMESTAMP_SECS <= secs && secs <= MAX_TIMESTAMP_SECS && (nanos as u64) < NANOS_PER_SEC {
            Some(Timestamp { secs, nanos })
        } else {
            None
        }
    }

    /// Whole seconds since the Unix epoch, rounded down.
    pub fn secs(&self) -> (r: i64)
        ensures
            r == second_of(self@),
    {
        proof {
            use_type_invariant(self);
        }
        self.secs
    }

    /// Nanoseconds into the current second.
    pub fn nanos(&self) -> (r: u32)
        ensures
            r == nanos_into(self@),
    {
        proof {
            use_type_invariant(self);
        }
        self.nanos
    }

    /// Whether `self` comes before `other`.
    pub fn before(&self, other: &Timestamp) -> (r: bool)
        ensures
            r == comes_before(self@, other@),
    {
        proof {
            use_type_invariant(self);
            use_type_invariant(other);
        }
        self.secs < other.secs || (self.secs == other.secs && self.nanos < other.nanos)
    }

    /// Whole seconds from `earlier` to `self`, rounded towards zero.
    pub fn seconds_since(&self, earlier: &Timestamp) -> (r: i64)
        ensures
            r == whole_seconds(self@ - earlier@),
    {
        proof {
            use_type_invariant(self);
            use_type_invariant(earlier);
        }
        let d = chrono_distance(self.secs, self.nanos, earlier.secs, earlier.nanos);
        d.0
    }

    /// Whether `self` is at least `secs` seconds after `earlier`.
    pub fn at_least_after(&self, earlier: &Timestamp, secs: i64) -> (r: bool)
        ensures
            r == lies_behind(self@, earlier@, secs as int),
    {
        proof {
            use_type_invariant(self);
            use_type_invariant(earlier);
        }
        let d = chrono_distance(self.secs, self.nanos, earlier.secs, earlier.nanos);
        d.0 > secs || (d.0 == secs && d.1 >= 0)
    }

    /// Nanoseconds from `earlier` to `self`, zero where `earlier` is the later one.
    pub fn nanos_since(&self, earlier: &Timestamp) -> (r: u128)
        ensures
            r == clamped(self@ - earlier@),
    {
        proof {
            use_type_invariant(self);
            use_type_invariant(earlier);
        }
        let d = chrono_distance(self.secs, self.nanos, earlier.secs, earlier.nanos);
        if d.0 < 0 || d.1 < 0 {
            0
        } else {
            d.0 as u128 * NANOS_PER_SEC as u128 + d.1 as u128
        }
    }
}

/// The whole seconds in a number of nanoseconds.
pub fn nanos_to_secs(nanos: u128) -> (r: u128)
    ensures
        r == whole_seconds(nanos as int),
{
    nanos / NANOS_PER_SEC as u128
}

} // verus!
