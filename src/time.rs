use vstd::prelude::*;
use vstd::arithmetic::div_mod::{lemma_fundamental_div_mod, lemma_fundamental_div_mod_converse};

verus! {

/// Nanoseconds in one microsecond.
pub const NANOS_PER_MICRO: i64 = 1000;

/// Microseconds in one second.
pub const MICROS_PER_SEC: i64 = 1_000_000;

/// Nanoseconds in one second.
pub const NANOS_PER_SEC: i64 = 1_000_000_000;

/// Whether an instant, in nanoseconds since the POSIX epoch, has a whole
/// number of microseconds (rounded down) that fits in an `i64`.
pub open spec fn representable(nanos: int) -> bool {
    i64::MIN <= nanos / (NANOS_PER_MICRO as int) <= i64::MAX
}

/// A signed time interval with microsecond resolution.
#[derive(Clone, Copy, Debug, PartialEq, Eq, Structural)]
pub struct Duration {
    micros: i64,
}

impl View for Duration {
    type V = int;

    /// The interval, in microseconds.
    closed spec fn view(&self) -> int {
        self.micros as int
    }
}

impl Duration {
    /// The empty interval.
    pub fn zero() -> (r: Duration)
        ensures
            r@ == 0,
    {
        Duration { micros: 0 }
    }

    /// An interval of `us` microseconds.
    pub fn microseconds(us: i64) -> (r: Duration)
        ensures
            r@ == us,
    {
        Duration { micros: us }
    }

    /// The interval in whole microseconds.
    pub fn num_microseconds(&self) -> (r: i64)
        ensures
            r == self@,
    {
        self.micros
    }
}

/// An absolute instant, measured from the POSIX epoch (1970-01-01 00:00:00 UTC)
/// with nanosecond resolution.
#[derive(Clone, Copy, Debug, PartialEq, Eq, Structural)]
pub struct Timestamp {
    /// Whole microseconds since the epoch, rounded down.
    micros: i64,
    /// Nanoseconds beyond `micros`.
    sub_micro_nanos: u16,
}

impl View for Timestamp {
    type V = int;

    /// The instant, in nanoseconds since the epoch.
    closed spec fn view(&self) -> int {
        self.micros * NANOS_PER_MICRO + self.sub_micro_nanos
    }
}

impl Timestamp {
    #[verifier::type_invariant]
    spec fn well_formed(self) -> bool {
        self.sub_micro_nanos < NANOS_PER_MICRO
    }

    /// The instant `secs` seconds and `subsec_nanos` nanoseconds after the epoch;
    /// `None` where `subsec_nanos` is not below one second, or where the instant
    /// is not representable.
    pub fn from_parts(secs: i64, subsec_nanos: u32) -> (r: Option<Timestamp>)
        ensures
            r.is_some() <==> subsec_nanos < NANOS_PER_SEC && representable(
                secs * NANOS_PER_SEC + subsec_nanos,
            ),
            r.is_some() ==> r.unwrap()@ == secs * NANOS_PER_SEC + subsec_nanos,
    {
        if subsec_nanos >= 1_000_000_000 {
            return None;
        }
        let whole: u32 = subsec_nanos / 1000;
        let part: u32 = subsec_nanos % 1000;
        let us: i128 = secs as i128 * 1_000_000 + whole as i128;
        proof {
            let n = secs * NANOS_PER_SEC + subsec_nanos;
            assert(n == us * 1000 + part);
            lemma_fundamental_div_mod_converse(n, 1000, us as int, part as int);
        }
        if us < i64::MIN as i128 || us > i64::MAX as i128 {
            None
        } else {
            Some(Timestamp { micros: us as i64, sub_micro_nanos: part as u16 })
        }
    }

    /// The instant `us` microseconds after the epoch.
    pub fn from_micros(us: i64) -> (r: Timestamp)
        ensures
            r@ == us * NANOS_PER_MICRO,
    {
        Timestamp { micros: us, sub_micro_nanos: 0 }
    }

    /// Whole microseconds since the epoch, rounded down.
    pub fn timestamp_micros(&self) -> (r: i64)
        ensures
            r == self@ / (NANOS_PER_MICRO as int),
    {
        proof {
            use_type_invariant(self);
            lemma_fundamental_div_mod_converse(
                self@,
                NANOS_PER_MICRO as int,
                self.micros as int,
                self.sub_micro_nanos as int,
            );
        }
        self.micros
    }

    /// Whole seconds since the epoch, rounded down, and the nanoseconds
    /// beyond them.
    pub fn to_parts(&self) -> (r: (i64, u32))
        ensures
            self@ == r.0 * NANOS_PER_SEC + r.1,
            r.1 < NANOS_PER_SEC,
    {
        proof {
            use_type_invariant(self);
        }
        let secs: i64 = self.micros.checked_div_euclid(MICROS_PER_SEC).unwrap();
        let rem: i64 = self.micros.checked_rem_euclid(MICROS_PER_SEC).unwrap();
        proof {
            lemma_fundamental_div_mod(self.micros as int, MICROS_PER_SEC as int);
        }
        (secs, (rem as u32) * 1000 + self.sub_micro_nanos as u32)
    }
}

} // verus!
