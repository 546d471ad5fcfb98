//! Non-negative spans of time measured in whole nanoseconds.

use vstd::prelude::*;

verus! {

/// Nanoseconds in one second.
pub const NANOS_PER_SEC: u128 = 1_000_000_000;

/// Largest representable span: `u64::MAX` seconds plus 999,999,999 ns.
pub const MAX_SPAN_NANOS: u128 = 18_446_744_073_709_551_615_999_999_999;

/// A span of time with nanosecond resolution, covering the same range as
/// a standard duration.
#[derive(Clone, Copy, Debug, PartialEq, Eq, Structural)]
pub struct TimeSpan {
    nanos: u128,
}

/// The rendered text of a span (such as `1s` or `20ms`), as produced by the
/// standard duration's debug formatting for the given number of nanoseconds.
pub uninterp spec fn duration_debug_text(nanos: int) -> Seq<char>;

impl TimeSpan {
    /// Total length in nanoseconds.
    pub closed spec fn view_nanos(self) -> int {
        self.nanos as int
    }

    /// Every span is within the representable range.
    #[verifier::type_invariant]
    spec fn within_range(self) -> bool {
        self.nanos <= MAX_SPAN_NANOS
    }

    /// The empty span.
    pub fn zero() -> (span: Self)
        ensures
            span.view_nanos() == 0,
    {
        TimeSpan { nanos: 0 }
    }

    /// A span of whole seconds.
    pub fn from_secs(secs: u64) -> (span: Self)
        ensures
            span.view_nanos() == secs * 1_000_000_000,
    {
        TimeSpan { nanos: secs as u128 * NANOS_PER_SEC }
    }

    /// A span of whole milliseconds.
    pub fn from_millis(millis: u64) -> (span: Self)
        ensures
            span.view_nanos() == millis * 1_000_000,
    {
        TimeSpan { nanos: millis as u128 * 1_000_000 }
    }

    /// A span of whole microseconds.
    pub fn from_micros(micros: u64) -> (span: Self)
        ensures
            span.view_nanos() == micros * 1_000,
    {
        TimeSpan { nanos: micros as u128 * 1_000 }
    }

    /// A span of nanoseconds.
    pub fn from_nanos(nanos: u64) -> (span: Self)
        ensures
            span.view_nanos() == nanos,
    {
        TimeSpan { nanos: nanos as u128 }
    }

    /// A span of whole seconds plus a sub-second part in nanoseconds.
    pub fn from_parts(secs: u64, subsec_nanos: u32) -> (span: Self)
        requires
            subsec_nanos < 1_000_000_000,
        ensures
            span.view_nanos() == secs * 1_000_000_000 + subsec_nanos,
    {
        TimeSpan { nanos: secs as u128 * NANOS_PER_SEC + subsec_nanos as u128 }
    }

    /// Total length in nanoseconds.
    pub fn as_nanos(&self) -> (nanos: u128)
        ensures
            nanos == self.view_nanos(),
    {
        self.nanos
    }

    /// Whole seconds of the span.
    pub fn as_secs(&self) -> (secs: u64)
        ensures
            secs == self.view_nanos() / 1_000_000_000,
    {
        proof {
            use_type_invariant(self);
        }
        (self.nanos / NANOS_PER_SEC) as u64
    }

    /// Nanoseconds beyond the whole seconds.
    pub fn subsec_nanos(&self) -> (nanos: u32)
        ensures
            nanos == self.view_nanos() % 1_000_000_000,
    {
        (self.nanos % NANOS_PER_SEC) as u32
    }

    /// `self - other`, or zero when `other` is longer.
    pub fn saturating_sub(self, other: Self) -> (span: Self)
        ensures
            span.view_nanos() == if self.view_nanos() >= other.view_nanos() {
                self.view_nanos() - other.view_nanos()
            } else {
                0
            },
    {
        proof {
            use_type_invariant(self);
        }
        if self.nanos >= other.nanos {
            TimeSpan { nanos: self.nanos - other.nanos }
        } else {
            TimeSpan { nanos: 0 }
        }
    }

    /// The shorter of two spans.
    pub fn min(self, other: Self) -> (span: Self)
        ensures
            span == (if self.view_nanos() <= other.view_nanos() { self } else { other }),
    {
        if self.nanos <= other.nanos {
            self
        } else {
            other
        }
    }

    /// Whether this span is at least as long as `other`.
    pub fn is_at_least(&self, other: &Self) -> (result: bool)
        ensures
            result == (self.view_nanos() >= other.view_nanos()),
    {
        self.nanos >= other.nanos
    }

    /// The rendered text of the span, as a standard duration prints it in
    /// debug form.
    pub fn debug_text(&self) -> (text: String)
        ensures
            text@ == duration_debug_text(self.view_nanos()),
    {
        proof {
            use_type_invariant(self);
        }
        let secs = self.as_secs();
        let nanos = self.subsec_nanos();
        format_duration_debug(secs, nanos)
    }
}

/// Formats `Duration::new(secs, nanos)` with the standard debug formatter.
#[verifier::external_body]
fn format_duration_debug(secs: u64, nanos: u32) -> (text: String)
    requires
        nanos < 1_000_000_000,
    ensures
        text@ == duration_debug_text(secs * 1_000_000_000 + nanos),
{
    format!("{:?}", std::time::Duration::new(secs, nanos))
}

} // verus!
