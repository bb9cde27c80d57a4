//! Timeouts after which the runner gives up waiting on a pipeline.

use vstd::prelude::*;

verus! {

/// Number of nanoseconds in a second.
pub const NANOS_PER_SEC: u32 = 1_000_000_000;

/// The text that `Debug` writes for `std::time::Duration::new(secs, nanos)`.
pub uninterp spec fn duration_debug_text(secs: u64, nanos: u32) -> Seq<char>;

/// Formats `std::time::Duration::new(secs, nanos)` with `{:?}` (std's `Debug`
/// impl of `Duration`, such as `30s` or `1.5s`). `Duration::new` only panics when
/// the nanoseconds carry into the seconds, which `requires` rules out. The
/// contract claims no more than that the text is a function of the two parts.
#[verifier::external_body]
fn duration_debug(secs: u64, nanos: u32) -> (text: String)
    requires
        nanos < NANOS_PER_SEC,
    ensures
        text@ == duration_debug_text(secs, nanos),
{
    format!("{:?}", std::time::Duration::new(secs, nanos))
}

/// A span of time: whole seconds and the nanoseconds of the last fraction of a second.
#[derive(Clone, Copy, Debug)]
pub struct Timeout {
    secs: u64,
    nanos: u32,
}

impl Timeout {
    /// The nanoseconds part stays under one second.
    #[verifier::type_invariant]
    spec fn well_formed(self) -> bool {
        self.nanos < NANOS_PER_SEC
    }

    /// Whole seconds of the span.
    pub closed spec fn secs(self) -> u64 {
        self.secs
    }

    /// Nanoseconds beyond the whole seconds.
    pub closed spec fn nanos(self) -> u32 {
        self.nanos
    }

    /// The span as a number of nanoseconds.
    pub open spec fn total_nanos(self) -> int {
        self.secs() * (NANOS_PER_SEC as int) + self.nanos()
    }

    /// The text that `{:?}` writes for this span as a `Duration`.
    pub open spec fn text(self) -> Seq<char> {
        duration_debug_text(self.secs(), self.nanos())
    }

    /// A span of `secs` seconds and `nanos` further nanoseconds.
    pub fn from_parts(secs: u64, nanos: u32) -> (t: Timeout)
        requires
            nanos < NANOS_PER_SEC,
        ensures
            t.secs() == secs,
            t.nanos() == nanos,
    {
        Timeout { secs, nanos }
    }

    /// A span of whole seconds.
    pub fn from_secs(secs: u64) -> (t: Timeout)
        ensures
            t.secs() == secs,
            t.nanos() == 0,
    {
        Timeout { secs, nanos: 0 }
    }

    /// A span of `millis` milliseconds.
    pub fn from_millis(millis: u64) -> (t: Timeout)
        ensures
            t.total_nanos() == millis * 1_000_000,
            t.secs() == millis / 1000,
            t.nanos() == (millis % 1000) * 1_000_000,
    {
        let secs: u64 = millis / 1000;
        let nanos: u32 = ((millis % 1000) as u32) * 1_000_000;
        Timeout { secs, nanos }
    }

    /// Whole seconds of the span.
    pub fn as_secs(&self) -> (s: u64)
        ensures
            s == self.secs(),
    {
        self.secs
    }

    /// Nanoseconds beyond the whole seconds; always under one second.
    pub fn subsec_nanos(&self) -> (n: u32)
        ensures
            n == self.nanos(),
            n < NANOS_PER_SEC,
    {
        proof {
            use_type_invariant(self);
        }
        self.nanos
    }

    /// The text that `{:?}` writes for this span as a `std::time::Duration`.
    pub fn to_debug_string(&self) -> (text: String)
        ensures
            text@ == self.text(),
    {
        proof {
            use_type_invariant(self);
        }
        duration_debug(self.secs, self.nanos)
    }
}

} // verus!
