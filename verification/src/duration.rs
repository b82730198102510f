//! A plain-value span of time: whole seconds plus a sub-second correction in
//! nanoseconds. Configuration code only needs to store a duration, compare it
//! against zero, and render it, so the type carries exactly the two integer
//! parts and their representation invariant.

use vstd::prelude::*;

use crate::render;

verus! {

/// A signed span of time, exact to the nanosecond.
///
/// The nanosecond part is a sub-second correction: it is less than one second
/// in magnitude and never opposes the sign of the seconds part, so the whole
/// value reads naturally as `secs` seconds plus `nanos` nanoseconds.
#[derive(Clone, Copy, Debug, PartialEq, Eq, Structural)]
pub struct Duration {
    secs: i64,
    nanos: i32,
}

impl Duration {
    /// The exact length of the duration in nanoseconds.
    pub open spec fn as_nanos(self) -> int {
        self.spec_secs() * 1_000_000_000 + self.spec_nanos()
    }

    /// The whole-seconds part, as a mathematical value.
    pub closed spec fn spec_secs(self) -> i64 {
        self.secs
    }

    /// The sub-second nanosecond part, as a mathematical value.
    pub closed spec fn spec_nanos(self) -> i32 {
        self.nanos
    }

    /// The representation invariant: the nanosecond part stays below one
    /// second in magnitude and agrees in sign with the seconds part. Every
    /// constructor establishes it.
    pub open spec fn wf(self) -> bool {
        &&& -999_999_999 <= self.spec_nanos() <= 999_999_999
        &&& self.spec_secs() > 0 ==> self.spec_nanos() >= 0
        &&& self.spec_secs() < 0 ==> self.spec_nanos() <= 0
    }

    /// A duration of exactly `secs` whole seconds.
    pub fn seconds(secs: i64) -> (d: Duration)
        ensures
            d.wf(),
            d.spec_secs() == secs,
            d.spec_nanos() == 0,
            d.as_nanos() == secs * 1_000_000_000,
    {
        Duration { secs, nanos: 0 }
    }

    /// A duration of `secs` seconds plus `nanos` nanoseconds.
    pub fn new(secs: i64, nanos: i32) -> (d: Duration)
        requires
            -999_999_999 <= nanos <= 999_999_999,
            secs > 0 ==> nanos >= 0,
            secs < 0 ==> nanos <= 0,
        ensures
            d.wf(),
            d.spec_secs() == secs,
            d.spec_nanos() == nanos,
            d.as_nanos() == secs * 1_000_000_000 + nanos,
    {
        Duration { secs, nanos }
    }

    /// The zero-length duration.
    pub fn zero() -> (d: Duration)
        ensures
            d.wf(),
            d.spec_secs() == 0,
            d.spec_nanos() == 0,
            d.as_nanos() == 0,
    {
        Duration { secs: 0, nanos: 0 }
    }

    /// Whether the duration is strictly longer than zero.
    pub fn is_positive(&self) -> (r: bool)
        requires
            self.wf(),
        ensures
            r == (self.as_nanos() > 0),
    {
        self.secs > 0 || (self.secs == 0 && self.nanos > 0)
    }

    /// The whole-seconds part.
    pub fn whole_seconds(&self) -> (r: i64)
        ensures
            r == self.spec_secs(),
    {
        self.secs
    }

    /// The sub-second nanosecond part.
    pub fn subsec_nanoseconds(&self) -> (r: i32)
        ensures
            r == self.spec_nanos(),
    {
        self.nanos
    }

    /// The diagnostic rendering of the duration: both integer parts by name.
    pub open spec fn spec_debug(self) -> Seq<char> {
        "Duration { secs: "@ + render::spec_i64_digits(self.spec_secs() as int)
            + ", nanos: "@ + render::spec_i64_digits(self.spec_nanos() as int) + " }"@
    }

    /// Appends the diagnostic rendering of the duration to `out`.
    pub fn append_debug(&self, out: &mut String)
        ensures
            final(out)@ == old(out)@ + self.spec_debug(),
    {
        render::append_str(out, "Duration { secs: ");
        render::append_i64(out, self.secs);
        render::append_str(out, ", nanos: ");
        render::append_i64(out, self.nanos as i64);
        render::append_str(out, " }");
        proof {
            assert(out@ =~= old(out)@ + self.spec_debug());
        }
    }
}

} // verus!
