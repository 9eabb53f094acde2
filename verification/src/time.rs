//! Points in time, held as microseconds since the Unix epoch (UTC).
use vstd::prelude::*;

verus! {

/// Earliest microsecond that chrono's `DateTime<Utc>` can hold (start of
/// January 1 of the astronomical year −262143, i.e. 262144 BCE).
pub const MIN_MICROS: i64 = -8334601315200000000i64;

/// Latest microsecond that chrono's `DateTime<Utc>` can hold (end of
/// December 31, 262142 CE).
pub const MAX_MICROS: i64 = 8210266876799999999i64;

/// `micros` names an instant that chrono's `DateTime<Utc>` can hold.
pub open spec fn representable(micros: i64) -> bool {
    MIN_MICROS <= micros <= MAX_MICROS
}

/// An instant, in microseconds since 1970-01-01T00:00:00Z.
#[derive(Debug, Clone, Copy)]
pub struct Timestamp {
    micros: i64,
}

impl Timestamp {
    #[verifier::type_invariant]
    spec fn inv(self) -> bool {
        representable(self.micros)
    }

    /// Microseconds since the epoch.
    pub closed spec fn spec_micros(self) -> i64 {
        self.micros
    }

    /// The instant `micros` microseconds after the epoch, where chrono can hold it.
    pub fn from_micros(micros: i64) -> (r: Option<Timestamp>)
        ensures
            r is Some <==> representable(micros),
            r matches Some(t) ==> t.spec_micros() == micros,
    {
        if MIN_MICROS <= micros && micros <= MAX_MICROS {
            Some(Timestamp { micros })
        } else {
            None
        }
    }

    /// Microseconds since the epoch.
    pub fn micros(&self) -> (m: i64)
        ensures
            m == self.spec_micros(),
            representable(m),
    {
        proof {
            use_type_invariant(self);
        }
        self.micros
    }

    /// The current time (never before the epoch: reading the clock fails
    /// there).
    pub fn now() -> (t: Timestamp)
        ensures
            t.spec_micros() >= 0,
    {
        let m = crate::ext::now_micros();
        Timestamp { micros: m }
    }
}

} // verus!
