use vstd::prelude::*;

verus! {

/// A point in time, held as a signed count of nanoseconds from the Unix
/// epoch: negative values lie before the epoch.
#[derive(Clone, Copy, Debug, PartialEq, Eq, Structural, PartialOrd, Ord, Hash)]
pub struct Timestamp {
    nanos: i128,
}

impl View for Timestamp {
    /// The signed number of nanoseconds from the Unix epoch.
    type V = int;

    closed spec fn view(&self) -> int {
        self.nanos as int
    }
}

/// What a raw middleware time point denotes: nothing for the sentinel zero,
/// otherwise that many nanoseconds from the Unix epoch.
pub open spec fn rmw_time_point(ts: i64) -> Option<int> {
    if ts == 0 {
        None
    } else {
        Some(ts as int)
    }
}

/// The instant an optional timestamp denotes, if any.
pub open spec fn opt_timestamp_view(t: Option<Timestamp>) -> Option<int> {
    match t {
        Some(t) => Some(t@),
        None => None,
    }
}

/// The magnitude of a signed nanosecond count, as an unsigned value; defined
/// for the minimum `i64` too, whose negation does not fit in `i64`.
fn unsigned_magnitude(ts: i64) -> (r: u64)
    ensures
        r as int == if ts < 0 { -(ts as int) } else { ts as int },
{
    if ts < 0 {
        let wide: i128 = ts as i128;
        (0i128 - wide) as u64
    } else {
        ts as u64
    }
}

impl Timestamp {
    /// The Unix epoch itself.
    pub fn unix_epoch() -> (r: Timestamp)
        ensures
            r@ == 0,
    {
        Timestamp { nanos: 0 }
    }

    /// The signed number of nanoseconds from the Unix epoch to this instant.
    pub fn nanos_since_epoch(&self) -> (r: i128)
        ensures
            r as int == self@,
    {
        self.nanos
    }

    /// This instant moved `n` nanoseconds later, or `None` where that is not
    /// representable.
    pub fn checked_add_nanos(&self, n: u64) -> (r: Option<Timestamp>)
        ensures
            r is Some <==> self@ + n <= i128::MAX,
            r matches Some(t) ==> t@ == self@ + n,
    {
        if self.nanos <= i128::MAX - (n as i128) {
            Some(Timestamp { nanos: self.nanos + n as i128 })
        } else {
            None
        }
    }

    /// This instant moved `n` nanoseconds earlier, or `None` where that is not
    /// representable.
    pub fn checked_sub_nanos(&self, n: u64) -> (r: Option<Timestamp>)
        ensures
            r is Some <==> self@ - n >= i128::MIN,
            r matches Some(t) ==> t@ == self@ - n,
    {
        if self.nanos >= i128::MIN + (n as i128) {
            Some(Timestamp { nanos: self.nanos - n as i128 })
        } else {
            None
        }
    }

    /// The number of nanoseconds from `earlier` to this instant, or `None`
    /// where `earlier` lies after this instant.
    pub fn duration_since(&self, earlier: &Timestamp) -> (r: Option<u128>)
        ensures
            r is Some <==> earlier@ <= self@,
            r matches Some(d) ==> d == self@ - earlier@,
    {
        if earlier.nanos > self.nanos {
            None
        } else if earlier.nanos >= 0 || self.nanos < 0 {
            Some((self.nanos - earlier.nanos) as u128)
        } else {
            let back: u128 = (0i128 - (earlier.nanos + 1)) as u128;
            Some(self.nanos as u128 + back + 1)
        }
    }

    /// The instant that a raw middleware time point `ts` denotes: `None` for
    /// the sentinel zero, the epoch plus `ts` nanoseconds for a positive
    /// `ts`, and the epoch minus the magnitude of `ts` for a negative one.
    /// Total: the magnitude of the minimum `i64` is taken without negating it
    /// in `i64`.
    pub fn from_rmw_time_point(ts: i64) -> (r: Option<Timestamp>)
        ensures
            opt_timestamp_view(r) == rmw_time_point(ts),
    {
        if ts == 0 {
            None
        } else if ts < 0 {
            Timestamp::unix_epoch().checked_sub_nanos(unsigned_magnitude(ts))
        } else {
            Timestamp::unix_epoch().checked_add_nanos(unsigned_magnitude(ts))
        }
    }
}

/// For raw time points `ts1 < 0 < ts2` with `ts2 == -ts1`, the instants they
/// convert to lie exactly `ts2 - ts1` nanoseconds apart.
pub proof fn lemma_symmetric_time_points_gap(
    ts1: i64,
    ts2: i64,
    t1: Option<Timestamp>,
    t2: Option<Timestamp>,
)
    requires
        ts1 < 0 < ts2,
        ts2 == -ts1,
        opt_timestamp_view(t1) == rmw_time_point(ts1),
        opt_timestamp_view(t2) == rmw_time_point(ts2),
    ensures
        t1 is Some,
        t2 is Some,
        t2->0@ - t1->0@ == ts2 - ts1,
{
}

} // verus!
