use vstd::prelude::*;

verus! {

/// Nanoseconds in one second.
pub const NANOS_PER_SEC: u32 = 1_000_000_000;

/// Nanoseconds in one millisecond.
pub const NANOS_PER_MILLI: u32 = 1_000_000;

/// A span of time with nanosecond precision, as whole seconds plus a
/// sub-second part.
#[derive(Clone, Copy, Debug)]
pub struct Duration {
    secs: u64,
    nanos: u32,
}

impl View for Duration {
    type V = nat;

    /// The span in nanoseconds.
    closed spec fn view(&self) -> nat {
        (self.secs * 1_000_000_000 + self.nanos) as nat
    }
}

impl Duration {
    #[verifier::type_invariant]
    closed spec fn sub_second(self) -> bool {
        self.nanos < 1_000_000_000
    }

    /// A span of `secs` seconds plus `nanos` nanoseconds; a `nanos` of a
    /// second or more carries into the seconds.
    pub fn new(secs: u64, nanos: u32) -> (d: Duration)
        requires
            secs + nanos / 1_000_000_000 <= u64::MAX,
        ensures
            d@ == secs * 1_000_000_000 + nanos,
    {
        let carry: u64 = (nanos / NANOS_PER_SEC) as u64;
        let rest: u32 = nanos % NANOS_PER_SEC;
        Duration { secs: secs + carry, nanos: rest }
    }

    /// A span of `millis` milliseconds.
    pub fn from_millis(millis: u64) -> (d: Duration)
        ensures
            d@ == millis * 1_000_000,
    {
        let secs: u64 = millis / 1000;
        let rest: u32 = (millis % 1000) as u32;
        Duration { secs, nanos: rest * NANOS_PER_MILLI }
    }

    /// The whole seconds of the span.
    pub fn as_secs(&self) -> (s: u64)
        ensures
            s == self@ / 1_000_000_000,
    {
        proof { use_type_invariant(self); }
        self.secs
    }

    /// The part of the span below one second, in nanoseconds.
    pub fn subsec_nanos(&self) -> (n: u32)
        ensures
            n == self@ % 1_000_000_000,
    {
        proof { use_type_invariant(self); }
        self.nanos
    }

    /// The whole milliseconds of the span.
    pub fn as_millis(&self) -> (m: u128)
        ensures
            m == self@ / 1_000_000,
    {
        proof { use_type_invariant(self); }
        (self.secs as u128) * 1000 + (self.nanos / NANOS_PER_MILLI) as u128
    }
}


/// The span, in nanoseconds, that a configured millisecond count stands for.
pub open spec fn millis_span(millis: u64) -> nat {
    (millis * 1_000_000) as nat
}

/// The millisecond count that a span is written back as: its whole
/// milliseconds, truncated to the low 64 bits.
pub open spec fn span_millis(nanos: nat) -> u64 {
    ((nanos / 1_000_000) % 0x1_0000_0000_0000_0000) as u64
}

/// Reads a configured timeout, given in milliseconds.
pub fn from_duration(millis: u64) -> (d: Duration)
    ensures
        d@ == millis_span(millis),
        d@ == millis * 1_000_000,
{
    Duration::from_millis(millis)
}

/// Writes a timeout back as milliseconds: the whole milliseconds of the
/// span, truncated to 64 bits.
pub fn as_duration(duration: &Duration) -> (millis: u64)
    ensures
        millis == span_millis(duration@),
        millis == (duration@ / 1_000_000) % 0x1_0000_0000_0000_0000,
{
    let whole: u128 = duration.as_millis();
    let low: u128 = whole % 0x1_0000_0000_0000_0000;
    low as u64
}

/// Whether a connection that has waited `elapsed` has outlived `timeout`:
/// strictly longer counts, exactly as long does not.
pub fn is_timeout(elapsed: &Duration, timeout: &Duration) -> (expired: bool)
    ensures
        expired == (elapsed@ > timeout@),
{
    let es: u64 = elapsed.as_secs();
    let en: u32 = elapsed.subsec_nanos();
    let ts: u64 = timeout.as_secs();
    let tn: u32 = timeout.subsec_nanos();
    es > ts || (es == ts && en > tn)
}

/// A configured count of milliseconds stands for exactly that many
/// milliseconds: more milliseconds give a strictly longer span, one more
/// millisecond is one million nanoseconds more, and none is no time at all.
pub proof fn lemma_millis_span_scale(millis: u64, other: u64)
    ensures
        millis_span(millis) == millis * 1_000_000,
        millis_span(0) == 0,
        millis < other ==> millis_span(millis) < millis_span(other),
        millis < u64::MAX ==> millis_span((millis + 1) as u64) == millis_span(millis) + 1_000_000,
{
    assert(millis < other ==> millis * 1_000_000 < other * 1_000_000) by (nonlinear_arith);
}

/// The milliseconds written for a span are its whole milliseconds: the
/// largest count whose span does not exceed it, as long as that count fits
/// in 64 bits; beyond that the count wraps around.
pub proof fn lemma_span_millis_floor(nanos: nat)
    ensures
        nanos / 1_000_000 <= u64::MAX ==> span_millis(nanos) * 1_000_000 <= nanos
            < (span_millis(nanos) + 1) * 1_000_000,
        nanos / 1_000_000 <= u64::MAX ==> span_millis(nanos) == nanos / 1_000_000,
        span_millis(nanos) == (nanos / 1_000_000) % 0x1_0000_0000_0000_0000,
{
    if nanos / 1_000_000 <= u64::MAX {
        let q = nanos / 1_000_000;
        assert(q * 1_000_000 <= nanos < (q + 1) * 1_000_000) by (nonlinear_arith)
            requires q == nanos / 1_000_000;
    }
}

/// A timeout written back after being read is the millisecond count that
/// was configured.
pub proof fn lemma_millis_round_trip(millis: u64)
    ensures
        span_millis(millis_span(millis)) == millis,
{
    assert((millis * 1_000_000) as nat / 1_000_000 == millis) by (nonlinear_arith);
}

/// A span of whole milliseconds that fits in 64 bits reads back as itself
/// after being written as milliseconds.
pub proof fn lemma_span_round_trip(nanos: nat)
    requires
        nanos % 1_000_000 == 0,
        nanos / 1_000_000 <= u64::MAX,
    ensures
        millis_span(span_millis(nanos)) == nanos,
{
    assert(nanos == (nanos / 1_000_000) * 1_000_000) by (nonlinear_arith)
        requires nanos % 1_000_000 == 0;
}

} // verus!
