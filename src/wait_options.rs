//! How long to wait, and how often to look.
use crate::span::{lemma_span_of, max_span, span_of, TimeSpan};
use vstd::prelude::*;
use vstd::std_specs::convert::FromSpec;

verus! {

/// How long a wait lasts in all, and how long it sleeps between two looks.
///
/// Every integer, span and pair of them converts into options with `From`, an
/// integer counting whole seconds wherever it stands; the two conversions from a
/// single value derive the interval from the duration.
#[derive(Clone, Copy, PartialEq, Eq, Structural, Debug)]
pub struct WaitOptions {
    pub duration: TimeSpan,
    pub poll_frecuency: TimeSpan,
}

impl WaitOptions {
    /// Options with the given duration and interval.
    pub fn new(duration: TimeSpan, poll_frecuency: TimeSpan) -> (r: WaitOptions)
        ensures
            r.duration == duration,
            r.poll_frecuency == poll_frecuency,
    {
        WaitOptions { duration, poll_frecuency }
    }

    /// A duration of `millis` milliseconds, looking every fiftieth of it in
    /// whole milliseconds: the rule for a duration given in seconds.
    pub fn from_millis(millis: u64) -> (r: WaitOptions)
        ensures
            r.duration@ == millis as nat * 1_000_000,
            r.poll_frecuency@ == (millis as nat / 50) * 1_000_000,
    {
        WaitOptions {
            duration: TimeSpan::from_millis(millis),
            poll_frecuency: TimeSpan::from_millis(millis / 50),
        }
    }

    /// How long the wait lasts in all.
    pub fn duration(&self) -> (r: TimeSpan)
        ensures
            r == self.duration,
    {
        self.duration
    }

    /// How long the wait sleeps between two looks.
    pub fn poll_frecuency(&self) -> (r: TimeSpan)
        ensures
            r == self.poll_frecuency,
    {
        self.poll_frecuency
    }

    /// The same options with another duration.
    pub fn with_duration(self, duration: TimeSpan) -> (r: WaitOptions)
        ensures
            r.duration == duration,
            r.poll_frecuency == self.poll_frecuency,
    {
        let mut r = self;
        r.duration = duration;
        r
    }

    /// The same options with another interval.
    pub fn with_poll_frecuency(self, poll_frecuency: TimeSpan) -> (r: WaitOptions)
        ensures
            r.duration == self.duration,
            r.poll_frecuency == poll_frecuency,
    {
        let mut r = self;
        r.poll_frecuency = poll_frecuency;
        r
    }
}

impl Default for WaitOptions {
    /// Ten seconds, looking every twenty milliseconds.
    fn default() -> (r: WaitOptions)
        ensures
            r.duration@ == 10_000_000_000,
            r.poll_frecuency@ == 20_000_000,
    {
        WaitOptions { duration: TimeSpan::from_secs(10), poll_frecuency: TimeSpan::from_millis(20) }
    }
}

/// Whole seconds: the duration is that many thousand milliseconds, and the
/// interval a fiftieth of it.
impl From<u64> for WaitOptions {
    fn from(seconds: u64) -> (r: WaitOptions) {
        let poll_millis = seconds as u128 * 20;
        assert(poll_millis / 1000 <= u64::MAX);
        WaitOptions {
            duration: TimeSpan::from_secs(seconds),
            poll_frecuency: TimeSpan::from_millis_wide(poll_millis),
        }
    }
}

impl vstd::std_specs::convert::FromSpecImpl<u64> for WaitOptions {
    open spec fn obeys_from_spec() -> bool {
        true
    }

    open spec fn from_spec(seconds: u64) -> WaitOptions {
        WaitOptions {
            duration: span_of(seconds as nat * 1_000_000_000),
            poll_frecuency: span_of(seconds as nat * 20 * 1_000_000),
        }
    }
}

/// Whole seconds for the duration and for the interval.
impl From<(u64, u64)> for WaitOptions {
    fn from(v: (u64, u64)) -> (r: WaitOptions) {
        WaitOptions { duration: TimeSpan::from_secs(v.0), poll_frecuency: TimeSpan::from_secs(v.1) }
    }
}

impl vstd::std_specs::convert::FromSpecImpl<(u64, u64)> for WaitOptions {
    open spec fn obeys_from_spec() -> bool {
        true
    }

    open spec fn from_spec(v: (u64, u64)) -> WaitOptions {
        WaitOptions {
            duration: span_of(v.0 as nat * 1_000_000_000),
            poll_frecuency: span_of(v.1 as nat * 1_000_000_000),
        }
    }
}

/// A duration alone: the interval is a twentieth of it.
impl From<TimeSpan> for WaitOptions {
    fn from(duration: TimeSpan) -> (r: WaitOptions) {
        let poll_nanos = duration.as_nanos() / 20;
        assert(poll_nanos / 1_000_000_000 <= u64::MAX);
        WaitOptions { duration, poll_frecuency: TimeSpan::from_nanos_wide(poll_nanos) }
    }
}

impl vstd::std_specs::convert::FromSpecImpl<TimeSpan> for WaitOptions {
    open spec fn obeys_from_spec() -> bool {
        true
    }

    open spec fn from_spec(duration: TimeSpan) -> WaitOptions {
        WaitOptions { duration, poll_frecuency: span_of(duration@ / 20) }
    }
}

/// A duration and an interval.
impl From<(TimeSpan, TimeSpan)> for WaitOptions {
    fn from(v: (TimeSpan, TimeSpan)) -> (r: WaitOptions) {
        WaitOptions { duration: v.0, poll_frecuency: v.1 }
    }
}

impl vstd::std_specs::convert::FromSpecImpl<(TimeSpan, TimeSpan)> for WaitOptions {
    open spec fn obeys_from_spec() -> bool {
        true
    }

    open spec fn from_spec(v: (TimeSpan, TimeSpan)) -> WaitOptions {
        WaitOptions { duration: v.0, poll_frecuency: v.1 }
    }
}

/// A duration, and the interval in whole seconds.
impl From<(TimeSpan, u64)> for WaitOptions {
    fn from(v: (TimeSpan, u64)) -> (r: WaitOptions) {
        WaitOptions { duration: v.0, poll_frecuency: TimeSpan::from_secs(v.1) }
    }
}

impl vstd::std_specs::convert::FromSpecImpl<(TimeSpan, u64)> for WaitOptions {
    open spec fn obeys_from_spec() -> bool {
        true
    }

    open spec fn from_spec(v: (TimeSpan, u64)) -> WaitOptions {
        WaitOptions { duration: v.0, poll_frecuency: span_of(v.1 as nat * 1_000_000_000) }
    }
}

/// The duration in whole seconds, and an interval.
impl From<(u64, TimeSpan)> for WaitOptions {
    fn from(v: (u64, TimeSpan)) -> (r: WaitOptions) {
        WaitOptions { duration: TimeSpan::from_secs(v.0), poll_frecuency: v.1 }
    }
}

impl vstd::std_specs::convert::FromSpecImpl<(u64, TimeSpan)> for WaitOptions {
    open spec fn obeys_from_spec() -> bool {
        true
    }

    open spec fn from_spec(v: (u64, TimeSpan)) -> WaitOptions {
        WaitOptions { duration: span_of(v.0 as nat * 1_000_000_000), poll_frecuency: v.1 }
    }
}

/// Whole seconds `s` give a duration of `s * 1000` milliseconds and an
/// interval of a fiftieth of that; a pair of whole seconds `(s, p)` gives a
/// duration of `s` seconds and an interval of `p` seconds.
pub proof fn lemma_from_seconds(s: u64, p: u64)
    ensures
        <WaitOptions as FromSpec<u64>>::from_spec(s).duration@ == s as nat * 1000 * 1_000_000,
        <WaitOptions as FromSpec<u64>>::from_spec(s).poll_frecuency@ == (s as nat * 1000 / 50)
            * 1_000_000,
        <WaitOptions as FromSpec<(u64, u64)>>::from_spec((s, p)).duration@ == s as nat
            * 1_000_000_000,
        <WaitOptions as FromSpec<(u64, u64)>>::from_spec((s, p)).poll_frecuency@ == p as nat
            * 1_000_000_000,
{
    lemma_span_of(s as nat * 1_000_000_000);
    lemma_span_of(s as nat * 20 * 1_000_000);
    lemma_span_of(p as nat * 1_000_000_000);
    assert(s as nat * 1000 / 50 == s as nat * 20) by (nonlinear_arith);
}

/// A duration `d` given alone gets an interval of a twentieth of it.
pub proof fn lemma_from_duration(d: TimeSpan)
    requires
        d@ <= max_span(),
    ensures
        <WaitOptions as FromSpec<TimeSpan>>::from_spec(d).duration == d,
        <WaitOptions as FromSpec<TimeSpan>>::from_spec(d).poll_frecuency@ == d@ / 20,
{
    lemma_span_of(d@ / 20);
}

/// In a pair of a span and whole seconds, in either order, the integer counts
/// seconds, as it does in a pair of two integers.
pub proof fn lemma_mixed_pairs_in_seconds(d: TimeSpan, n: u64)
    ensures
        <WaitOptions as FromSpec<(TimeSpan, u64)>>::from_spec((d, n)).duration == d,
        <WaitOptions as FromSpec<(TimeSpan, u64)>>::from_spec((d, n)).poll_frecuency@ == n as nat
            * 1_000_000_000,
        <WaitOptions as FromSpec<(u64, TimeSpan)>>::from_spec((n, d)).duration@ == n as nat
            * 1_000_000_000,
        <WaitOptions as FromSpec<(u64, TimeSpan)>>::from_spec((n, d)).poll_frecuency == d,
{
    lemma_span_of(n as nat * 1_000_000_000);
}

} // verus!
