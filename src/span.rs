//! Spans of time with nanosecond resolution.
use vstd::prelude::*;

verus! {

/// Nanoseconds in one second.
pub const NANOS_PER_SEC: u32 = 1_000_000_000;

/// Nanoseconds in one millisecond.
pub const NANOS_PER_MILLI: u32 = 1_000_000;

/// The longest span that a `TimeSpan` holds, in nanoseconds.
pub open spec fn max_span() -> nat {
    u64::MAX as nat * 1_000_000_000 + 999_999_999
}

/// What `{:?}` writes for the `std::time::Duration` of `secs` seconds and
/// `nanos` nanoseconds.
pub uninterp spec fn duration_debug(secs: u64, nanos: u32) -> Seq<char>;

/// Relies on `std::time::Duration::new` and the `Debug` impl of `Duration`: the
/// text depends on the two numbers alone. `new` does not panic on nanoseconds
/// under a second.
#[verifier::external_body]
fn duration_debug_text(secs: u64, nanos: u32) -> (r: String)
    requires
        nanos < NANOS_PER_SEC,
    ensures
        r@ == duration_debug(secs, nanos),
{
    format!("{:?}", std::time::Duration::new(secs, nanos))
}

/// A span of time: whole seconds and the nanoseconds beyond them.
///
/// Its view is the span's length in nanoseconds.
#[derive(Clone, Copy, PartialEq, Eq, Structural, Debug)]
pub struct TimeSpan {
    secs: u64,
    nanos: u32,
}

impl View for TimeSpan {
    type V = nat;

    closed spec fn view(&self) -> nat {
        self.secs as nat * 1_000_000_000 + self.nanos as nat
    }
}

/// The span of `n` nanoseconds (for `n` up to `max_span()`).
pub closed spec fn span_of(n: nat) -> TimeSpan {
    TimeSpan { secs: (n / 1_000_000_000) as u64, nanos: (n % 1_000_000_000) as u32 }
}

/// `span_of` keeps the length it is given.
pub proof fn lemma_span_of(n: nat)
    requires
        n <= max_span(),
    ensures
        span_of(n)@ == n,
{
    assert(n == 1_000_000_000 * (n / 1_000_000_000) + n % 1_000_000_000) by (nonlinear_arith);
}

impl TimeSpan {
    #[verifier::type_invariant]
    spec fn inv(self) -> bool {
        self.nanos < NANOS_PER_SEC
    }

    /// A span of `secs` seconds.
    pub fn from_secs(secs: u64) -> (r: TimeSpan)
        ensures
            r@ == secs as nat * 1_000_000_000,
            r == span_of(secs as nat * 1_000_000_000),
    {
        assert((secs as nat * 1_000_000_000) / 1_000_000_000 == secs) by (nonlinear_arith);
        assert((secs as nat * 1_000_000_000) % 1_000_000_000 == 0) by (nonlinear_arith);
        TimeSpan { secs, nanos: 0 }
    }

    /// A span of `millis` milliseconds.
    pub fn from_millis(millis: u64) -> (r: TimeSpan)
        ensures
            r@ == millis as nat * 1_000_000,
            r == span_of(millis as nat * 1_000_000),
    {
        TimeSpan::from_millis_wide(millis as u128)
    }

    /// A span of `millis` milliseconds, for counts wider than `u64`.
    pub fn from_millis_wide(millis: u128) -> (r: TimeSpan)
        requires
            millis / 1000 <= u64::MAX,
        ensures
            r@ == millis as nat * 1_000_000,
            r == span_of(millis as nat * 1_000_000),
    {
        let secs = (millis / 1000) as u64;
        let rest = (millis % 1000) as u32;
        assert(rest < 1000);
        let nanos: u32 = rest * NANOS_PER_MILLI;
        assert(millis == 1000 * (millis / 1000) + millis % 1000) by (nonlinear_arith);
        let ghost n = millis as nat * 1_000_000;
        assert(n / 1_000_000_000 == millis / 1000 && n % 1_000_000_000 == (millis % 1000) * 1_000_000) by (nonlinear_arith)
            requires n == millis as nat * 1_000_000;
        TimeSpan { secs, nanos }
    }

    /// A span of `nanos` nanoseconds, for counts wider than `u64`.
    pub fn from_nanos_wide(nanos: u128) -> (r: TimeSpan)
        requires
            nanos / 1_000_000_000 <= u64::MAX,
        ensures
            r@ == nanos as nat,
            r == span_of(nanos as nat),
    {
        let secs = (nanos / 1_000_000_000) as u64;
        let rest = (nanos % 1_000_000_000) as u32;
        assert(nanos == 1_000_000_000 * (nanos / 1_000_000_000) + nanos % 1_000_000_000) by (nonlinear_arith);
        TimeSpan { secs, nanos: rest }
    }

    /// A span of `secs` seconds and `nanos` nanoseconds; nanoseconds beyond a
    /// second are carried into the seconds.
    pub fn new(secs: u64, nanos: u32) -> (r: TimeSpan)
        requires
            secs as nat + nanos as nat / 1_000_000_000 <= u64::MAX,
        ensures
            r@ == secs as nat * 1_000_000_000 + nanos as nat,
            r == span_of(secs as nat * 1_000_000_000 + nanos as nat),
    {
        let carry = nanos / NANOS_PER_SEC;
        let rest = nanos % NANOS_PER_SEC;
        assert(nanos == 1_000_000_000 * (nanos / 1_000_000_000) + nanos % 1_000_000_000) by (nonlinear_arith);
        let ghost n = secs as nat * 1_000_000_000 + nanos as nat;
        assert(n / 1_000_000_000 == secs + nanos / 1_000_000_000 && n % 1_000_000_000 == nanos % 1_000_000_000) by (nonlinear_arith)
            requires n == secs as nat * 1_000_000_000 + nanos as nat;
        TimeSpan { secs: secs + carry as u64, nanos: rest }
    }

    /// The whole seconds of the span.
    pub fn as_secs(&self) -> (r: u64)
        ensures
            r == self@ / 1_000_000_000,
    {
        proof {
            use_type_invariant(self);
        }
        self.secs
    }

    /// The nanoseconds of the span beyond its whole seconds.
    pub fn subsec_nanos(&self) -> (r: u32)
        ensures
            r == self@ % 1_000_000_000,
            r < NANOS_PER_SEC,
    {
        proof {
            use_type_invariant(self);
        }
        self.nanos
    }

    /// The length of the span in nanoseconds.
    pub fn as_nanos(&self) -> (r: u128)
        ensures
            r == self@,
            r <= u64::MAX as u128 * 1_000_000_000 + 999_999_999,
    {
        proof {
            use_type_invariant(self);
        }
        self.secs as u128 * 1_000_000_000 + self.nanos as u128
    }

    /// The span as `{:?}` writes a `std::time::Duration`, such as `1.5s`.
    pub closed spec fn debug_view(&self) -> Seq<char> {
        duration_debug(self.secs, self.nanos)
    }

    /// The span as `{:?}` writes a `std::time::Duration`, such as `1.5s`.
    pub fn debug_text(&self) -> (r: String)
        ensures
            r@ == self.debug_view(),
    {
        proof {
            use_type_invariant(self);
        }
        duration_debug_text(self.secs, self.nanos)
    }

    /// The whole milliseconds of the span.
    pub fn as_millis(&self) -> (r: u128)
        ensures
            r == self@ / 1_000_000,
            r <= u64::MAX as u128 * 1000 + 999,
    {
        proof {
            use_type_invariant(self);
        }
        self.secs as u128 * 1000 + (self.nanos / NANOS_PER_MILLI) as u128
    }
}

} // verus!
