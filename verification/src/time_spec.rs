use vstd::prelude::*;
use crate::double::Double;

verus! {

/// A time value: a whole number of seconds and a fraction of a second.
///
/// The seconds are kept as a 64-bit integer whatever the width of the
/// native library's time type; they are converted where the two meet.
#[derive(Debug, Clone, Copy, PartialEq, Eq, Structural)]
pub struct TimeSpec {
    pub seconds: i64,
    pub fraction: Double,
}

/// True when the native time type can hold this number of seconds.
pub open spec fn fits_native_time(seconds: i64) -> bool {
    libc::time_t::MIN <= seconds <= libc::time_t::MAX
}

/// A time as the native library takes and gives it: whole seconds in its own
/// time type, and the fraction.
#[derive(Debug, Clone, Copy)]
pub struct NativeTime {
    pub full_secs: libc::time_t,
    pub frac_secs: Double,
}

impl TimeSpec {
    /// Tells whether the native time type can hold the seconds of this time.
    pub fn is_native(&self) -> (fits: bool)
        ensures
            fits == fits_native_time(self.seconds),
    {
        libc::time_t::MIN as i64 <= self.seconds && self.seconds <= libc::time_t::MAX as i64
    }

    /// This time in the native form.
    pub open spec fn native(self) -> NativeTime {
        NativeTime { full_secs: self.seconds as libc::time_t, frac_secs: self.fraction }
    }

    /// Encodes this time in the native form.
    pub fn to_native(&self) -> (native: NativeTime)
        requires
            fits_native_time(self.seconds),
        ensures
            native == self.native(),
            native.full_secs as int == self.seconds as int,
    {
        NativeTime { full_secs: self.seconds as libc::time_t, frac_secs: self.fraction }
    }

    /// Decodes a time from the native form.
    pub fn from_native(native: NativeTime) -> (time: Self)
        ensures
            time == native.time(),
            time.seconds as int == native.full_secs as int,
    {
        TimeSpec { seconds: native.full_secs as i64, fraction: native.frac_secs }
    }
}

impl NativeTime {
    /// The time that this native form holds.
    pub open spec fn time(self) -> TimeSpec {
        TimeSpec { seconds: self.full_secs as i64, fraction: self.frac_secs }
    }
}

impl Default for TimeSpec {
    /// The time of zero seconds and a zero fraction.
    fn default() -> (time: Self)
        ensures
            time.seconds == 0,
            time.fraction.bits == 0,
    {
        TimeSpec { seconds: 0, fraction: Double::zero() }
    }
}

/// A time whose seconds the native time type can hold comes back unchanged
/// from the native form: the same seconds and the same fraction.
pub proof fn lemma_time_spec_round_trip(time: TimeSpec)
    requires
        fits_native_time(time.seconds),
    ensures
        time.native().time() == time,
{
}

} // verus!
