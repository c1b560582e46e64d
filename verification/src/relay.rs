use vstd::prelude::*;

verus! {

/// What a one-way relay does after a read from its source.
#[derive(Clone, Copy, Debug, PartialEq, Eq)]
pub enum ForwardStep {
    /// Write the `len` bytes just read to the sink; when `count` is set,
    /// first advance the transfer counter shared with the idle watchdog.
    Write { len: usize, count: bool },
    /// Stop reading and shut the sink down.
    Shutdown,
}

/// The step `forward_step` takes, as a spec.
pub open spec fn spec_forward_step(read: Option<usize>, counted: bool) -> ForwardStep {
    match read {
        Some(n) => if n > 0 {
            ForwardStep::Write { len: n, count: counted }
        } else {
            ForwardStep::Shutdown
        },
        None => ForwardStep::Shutdown,
    }
}

/// The step a relay takes after a read: `Some(n)` for a read of `n` bytes,
/// `None` for a failed read. Data is written on; an empty read (end of
/// stream) or a failed one ends the relay. `counted` says whether this relay
/// reports its progress to a watchdog.
pub fn forward_step(read: Option<usize>, counted: bool) -> (step: ForwardStep)
    ensures
        step == spec_forward_step(read, counted),
{
    match read {
        Some(n) => if n > 0 {
            ForwardStep::Write { len: n, count: counted }
        } else {
            ForwardStep::Shutdown
        },
        None => ForwardStep::Shutdown,
    }
}

/// A relay writes exactly when a read brought data, as much as it brought,
/// and counts the write exactly when it reports to a watchdog; an empty or
/// failed read shuts it down.
pub proof fn lemma_forward_step_rules(read: Option<usize>, counted: bool)
    ensures
        (spec_forward_step(read, counted) is Write) <==> (read matches Some(n) && n > 0),
        spec_forward_step(read, counted) matches ForwardStep::Write { len, count } ==> read == Some(len)
            && count == counted,
        spec_forward_step(None, counted) == ForwardStep::Shutdown,
        spec_forward_step(Some(0), counted) == ForwardStep::Shutdown,
{
}

/// The chunk lengths a relay writes for a run of reads: it takes
/// `forward_step` on each read in turn and stops at the first `Shutdown`.
pub open spec fn relay_writes(reads: Seq<Option<usize>>, counted: bool) -> Seq<usize>
    decreases reads.len(),
{
    if reads.len() == 0 {
        Seq::empty()
    } else {
        match spec_forward_step(reads[0], counted) {
            ForwardStep::Write { len, .. } => seq![len] + relay_writes(reads.drop_first(), counted),
            ForwardStep::Shutdown => Seq::empty(),
        }
    }
}

/// A relay issues one write per chunk read before the first empty or failed
/// read, in order and each of the length read; with a watchdog, each of
/// those writes is counted once. Nothing read after the end is written.
/// (Which bytes go out is the caller's: it writes the first `len` bytes of
/// the buffer it read into.)
pub proof fn lemma_relay_copies_until_end(reads: Seq<Option<usize>>, counted: bool)
    ensures
        relay_writes(reads, counted).len() <= reads.len(),
        forall|i: int| 0 <= i < relay_writes(reads, counted).len() ==>
            reads[i] == Some(#[trigger] relay_writes(reads, counted)[i]) && relay_writes(reads, counted)[i] > 0
            && spec_forward_step(reads[i], counted) == (ForwardStep::Write { len: reads[i]->0, count: counted }),
        relay_writes(reads, counted).len() < reads.len() ==> match reads[relay_writes(reads, counted).len() as int] {
            Some(n) => n == 0,
            None => true,
        },
    decreases reads.len(),
{
    if reads.len() > 0 {
        let rest = reads.drop_first();
        lemma_relay_copies_until_end(rest, counted);
        let w = relay_writes(reads, counted);
        if let ForwardStep::Write { len, .. } = spec_forward_step(reads[0], counted) {
            assert forall|i: int| 1 <= i < w.len() implies w[i] == relay_writes(rest, counted)[i - 1] && reads[i] == rest[i - 1] by {}
        }
    }
}

/// An event seen by the watchdog of a two-way relay.
#[derive(Clone, Copy, Debug, PartialEq, Eq)]
pub enum WatchEvent {
    /// One of the two directions has ended.
    RelayEnded,
    /// A watch period has passed; the shared transfer counter reads this.
    Tick(u64),
}

/// The watchdog's verdict on an event.
#[derive(Clone, Copy, Debug, PartialEq, Eq)]
pub enum WatchVerdict {
    /// A direction has ended: the relay is over and both directions stop.
    Ended,
    /// No data moved during the last period: the relay is dropped.
    Idle,
    /// Data moved: keep watching.
    Active,
}

/// Watches a two-way relay, stopping it when a whole period passes without
/// any chunk moving in either direction.
pub struct Watchdog {
    last: u64,
}

impl View for Watchdog {
    type V = u64;

    /// The counter value seen at the last period's end (0 at the start).
    closed spec fn view(&self) -> u64 {
        self.last
    }
}

impl Watchdog {
    /// A watchdog for a relay that has moved nothing yet.
    pub fn new() -> (w: Watchdog)
        ensures
            w@ == 0,
    {
        Watchdog { last: 0 }
    }

    /// Takes one event and gives the verdict.
    pub fn observe(&mut self, event: WatchEvent) -> (verdict: WatchVerdict)
        ensures
            match event {
                WatchEvent::RelayEnded => verdict == WatchVerdict::Ended && final(self)@ == old(self)@,
                WatchEvent::Tick(count) => if count == old(self)@ {
                    verdict == WatchVerdict::Idle && final(self)@ == old(self)@
                } else {
                    verdict == WatchVerdict::Active && final(self)@ == count
                },
            },
    {
        match event {
            WatchEvent::RelayEnded => WatchVerdict::Ended,
            WatchEvent::Tick(count) => {
                if count == self.last {
                    WatchVerdict::Idle
                } else {
                    self.last = count;
                    WatchVerdict::Active
                }
            },
        }
    }
}

/// Feeding a watchdog that last saw `last` the counter readings `counts`, one
/// per period: the index of the period at which it reports `Idle`, if any.
pub open spec fn watch_run(last: u64, counts: Seq<u64>) -> Option<int>
    decreases counts.len(),
{
    if counts.len() == 0 {
        None
    } else if counts[0] == last {
        Some(0)
    } else {
        match watch_run(counts[0], counts.drop_first()) {
            Some(k) => Some(k + 1),
            None => None,
        }
    }
}

/// The reading before period `i`: the previous reading, or `last` for the
/// first period.
pub open spec fn reading_before(last: u64, counts: Seq<u64>, i: int) -> u64 {
    if i == 0 {
        last
    } else {
        counts[i - 1]
    }
}

/// The reading before the first period is the one the watchdog started
/// from; before any later period, the reading of the period just before.
pub proof fn lemma_reading_before(last: u64, counts: Seq<u64>, i: int)
    ensures
        reading_before(last, counts, 0) == last,
        0 < i ==> reading_before(last, counts, i) == counts[i - 1],
{
}

/// A watchdog reports `Idle` at the first period whose reading equals the
/// one before it (for the first period, the reading it started from), and
/// never while the counter keeps changing.
pub proof fn lemma_idle_at_first_stall(last: u64, counts: Seq<u64>)
    ensures
        match watch_run(last, counts) {
            Some(k) => 0 <= k < counts.len() && counts[k] == reading_before(last, counts, k)
                && forall|j: int| 0 <= j < k ==> counts[j] != reading_before(last, counts, j),
            None => forall|j: int| 0 <= j < counts.len() ==> counts[j] != reading_before(last, counts, j),
        },
    decreases counts.len(),
{
    if counts.len() > 0 && counts[0] != last {
        let rest = counts.drop_first();
        lemma_idle_at_first_stall(counts[0], rest);
        assert forall|j: int| 1 <= j < counts.len() implies reading_before(last, counts, j)
            == reading_before(counts[0], rest, j - 1) && counts[j] == rest[j - 1] by {}
    }
}

} // verus!
