use vstd::prelude::*;
use crate::values::RPM_CALIBRATION;

verus! {

/// One of the two edge inputs, whose events alternate strictly.
#[derive(Debug, Clone, Copy, PartialEq, Eq, Structural)]
pub enum Channel {
    A,
    B,
}

/// The channel that follows `c`.
pub open spec fn other(c: Channel) -> Channel {
    match c {
        Channel::A => Channel::B,
        Channel::B => Channel::A,
    }
}

/// Revolutions per minute for `elapsed_ms` between two events, rounded down;
/// no sample when no time has passed.
pub open spec fn rpm_of(elapsed_ms: int) -> Option<int> {
    if elapsed_ms <= 0 {
        None
    } else {
        Some(RPM_CALIBRATION as int / elapsed_ms)
    }
}

/// The view of an optional sample.
pub open spec fn sample_view(s: Option<u64>) -> Option<int> {
    match s {
        Some(v) => Some(v as int),
        None => None,
    }
}

/// The RPM sample for `elapsed_ms` between two consecutive events.
pub fn rpm_from_elapsed(elapsed_ms: u64) -> (r: Option<u64>)
    ensures
        sample_view(r) == rpm_of(elapsed_ms as int),
{
    if elapsed_ms == 0 {
        None
    } else {
        Some(RPM_CALIBRATION / elapsed_ms)
    }
}

/// Tracks which channel is due and when the last event came.
#[derive(Debug, Clone, Copy, PartialEq, Eq, Structural)]
pub struct RotationTracker {
    pub expected: Channel,
    pub last_ms: u64,
}

/// The tracker after an edge on `channel` at `now_ms`, and the sample it
/// gives. An edge on the channel that is not due is ignored; time that runs
/// backwards counts as no time passed.
pub open spec fn after_edge(t: RotationTracker, channel: Channel, now_ms: u64) -> (
    RotationTracker,
    Option<int>,
) {
    if channel != t.expected {
        (t, None)
    } else {
        (
            RotationTracker { expected: other(t.expected), last_ms: now_ms },
            rpm_of(now_ms - t.last_ms),
        )
    }
}

impl RotationTracker {
    /// A tracker started at `start_ms`, waiting for channel A.
    pub fn new(start_ms: u64) -> (r: RotationTracker)
        ensures
            r == (RotationTracker { expected: Channel::A, last_ms: start_ms }),
    {
        RotationTracker { expected: Channel::A, last_ms: start_ms }
    }

    /// The channel whose rising edge the loop waits for next.
    pub fn expected_channel(&self) -> (r: Channel)
        ensures
            r == self.expected,
    {
        self.expected
    }

    /// Takes a rising edge on `channel` at `now_ms` and gives the RPM sample,
    /// if the edge was due and time has passed since the previous event.
    pub fn on_edge(&mut self, channel: Channel, now_ms: u64) -> (r: Option<u64>)
        ensures
            (*final(self), sample_view(r)) == after_edge(*old(self), channel, now_ms),
    {
        if channel != self.expected {
            return None;
        }
        let elapsed: u64 = if now_ms >= self.last_ms {
            now_ms - self.last_ms
        } else {
            0
        };
        self.expected = match self.expected {
            Channel::A => Channel::B,
            Channel::B => Channel::A,
        };
        self.last_ms = now_ms;
        rpm_from_elapsed(elapsed)
    }
}

/// The RPM formula: half a second between events gives 30, a second gives
/// 15, and no elapsed time gives no sample.
pub proof fn lemma_rpm_formula(elapsed_ms: int)
    ensures
        rpm_of(500) == Some(30int),
        rpm_of(1000) == Some(15int),
        rpm_of(0) is None,
        elapsed_ms > 0 ==> rpm_of(elapsed_ms) == Some(15000int / elapsed_ms),
{
}

/// Due edges alternate between the channels, and each sample depends only on
/// the time since the previous due edge, whichever channel gave it.
pub proof fn lemma_alternation(t: RotationTracker, now_ms: u64)
    requires
        now_ms >= t.last_ms,
    ensures
        after_edge(t, t.expected, now_ms).0.expected != t.expected,
        after_edge(after_edge(t, t.expected, now_ms).0, other(t.expected), now_ms).0.expected
            == t.expected,
        after_edge(t, t.expected, now_ms).1 == rpm_of(now_ms - t.last_ms),
        after_edge(t, other(t.expected), now_ms) == (t, None::<int>),
{
}

} // verus!
