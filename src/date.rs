use vstd::prelude::*;

verus! {

/// Seconds from the Unix epoch (1970-01-01) to the epoch that date nodes are
/// stored against (2001-01-01).
pub const MAC_EPOCH: i64 = 978307200;

/// Microseconds in one second.
pub const MICROS_PER_SEC: i64 = 1000000;

/// Whether a Unix timestamp in microseconds can be stored in a date node: its
/// whole seconds, counted from 2001-01-01, must fit in an `i32`.
pub open spec fn unix_date_fits(unix_micros: int) -> bool {
    i32::MIN <= unix_micros / (MICROS_PER_SEC as int) - MAC_EPOCH <= i32::MAX
}

/// The instant of a Unix timestamp, in microseconds since 2001-01-01.
pub open spec fn date_of_unix(unix_micros: int) -> int {
    unix_micros - MAC_EPOCH * MICROS_PER_SEC
}

/// The Unix timestamp, in microseconds, of an instant counted in
/// microseconds since 2001-01-01.
pub open spec fn unix_of_date(instant: int) -> int {
    instant + MAC_EPOCH * MICROS_PER_SEC
}

/// Reading back a date built from a Unix timestamp gives the same timestamp,
/// whether it lies before or after 2001-01-01.
pub proof fn date_round_trip(unix_micros: int)
    requires
        unix_date_fits(unix_micros),
    ensures
        unix_of_date(date_of_unix(unix_micros)) == unix_micros,
{
}

/// A date node: whole seconds and microseconds since 2001-01-01.
#[derive(Debug)]
pub struct Date {
    secs: i32,
    usecs: i32,
}

/// Splits a Unix timestamp into whole seconds since 2001-01-01 and the
/// microseconds left over, in `0..1_000_000`.
fn split_unix(unix_micros: i64) -> (r: (i32, i32))
    requires
        unix_date_fits(unix_micros as int),
    ensures
        r.0 as int * MICROS_PER_SEC + r.1 as int == date_of_unix(unix_micros as int),
        0 <= r.1 < MICROS_PER_SEC,
{
    let q: i64 = match unix_micros.checked_div_euclid(MICROS_PER_SEC) {
        Some(q) => q,
        None => 0,
    };
    let m: i64 = match unix_micros.checked_rem_euclid(MICROS_PER_SEC) {
        Some(m) => m,
        None => 0,
    };
    assert(unix_micros as int == q as int * MICROS_PER_SEC + m as int) by (nonlinear_arith)
        requires
            q as int == unix_micros as int / (MICROS_PER_SEC as int),
            m as int == unix_micros as int % (MICROS_PER_SEC as int),
    ;
    ((q - MAC_EPOCH) as i32, m as i32)
}

impl Date {
    /// The instant of the date, in microseconds since 2001-01-01.
    pub closed spec fn view(&self) -> int {
        self.secs as int * MICROS_PER_SEC + self.usecs as int
    }

    /// Creates a date node from a Unix timestamp in microseconds.
    pub fn new(unix_micros: i64) -> (r: Date)
        requires
            unix_date_fits(unix_micros as int),
        ensures
            r@ == date_of_unix(unix_micros as int),
    {
        let (secs, usecs) = split_unix(unix_micros);
        Date { secs, usecs }
    }

    /// Creates a date node from its stored form: whole seconds and
    /// microseconds since 2001-01-01.
    pub fn from_epoch_parts(secs: i32, usecs: i32) -> (r: Date)
        ensures
            r@ == secs as int * MICROS_PER_SEC + usecs as int,
    {
        Date { secs, usecs }
    }

    /// Returns the Unix timestamp of the date, in microseconds.
    pub fn get(&self) -> (r: i64)
        ensures
            r == unix_of_date(self@),
    {
        let s: i64 = self.secs as i64;
        assert(-2147483648 * 1000000 <= s * 1000000 <= 2147483647 * 1000000) by (nonlinear_arith)
            requires
                -2147483648 <= s <= 2147483647,
        ;
        s * MICROS_PER_SEC + self.usecs as i64 + MAC_EPOCH * MICROS_PER_SEC
    }

    /// Sets the date from a Unix timestamp in microseconds.
    pub fn set(&mut self, unix_micros: i64)
        requires
            unix_date_fits(unix_micros as int),
        ensures
            final(self)@ == date_of_unix(unix_micros as int),
    {
        let (secs, usecs) = split_unix(unix_micros);
        self.secs = secs;
        self.usecs = usecs;
    }

    /// Returns a copy of the node.
    pub fn clone(&self) -> (r: Date)
        ensures
            r@ == self@,
    {
        Date { secs: self.secs, usecs: self.usecs }
    }
}

impl Default for Date {
    /// The Unix epoch.
    fn default() -> (r: Date)
        ensures
            r@ == date_of_unix(0),
    {
        Date::new(0)
    }
}
} // verus!
