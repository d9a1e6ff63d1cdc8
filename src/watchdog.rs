use vstd::prelude::*;
use crate::values::WATCHDOG_SCRATCH0_VALUE;

verus! {

/// One operation on the hardware watchdog.
#[derive(Debug, Clone, Copy, PartialEq, Eq, Structural)]
pub enum WatchdogOp {
    /// Suspend (or not) the countdown while a debugger holds the core.
    PauseOnDebug(bool),
    /// Write scratch register 0, which survives a reset without power loss.
    WriteScratch(u32),
    /// Arm the countdown with the given timeout in milliseconds.
    Start(u64),
}

/// What the watchdog guard learned and set up at boot.
#[derive(Debug, Clone, Copy, PartialEq, Eq, Structural)]
pub struct WatchdogState {
    pub timeout_ms: u64,
    pub scratch_marker: u32,
    pub reset_detected: bool,
}

/// A scratch value equal to the marker means the previous run was ended by a
/// reset that kept power: a watchdog expiry (or another warm reset).
pub open spec fn is_watchdog_reset(scratch: u32) -> bool {
    scratch == WATCHDOG_SCRATCH0_VALUE
}

/// The state that booting with scratch value `scratch` gives.
pub open spec fn boot_state(scratch: u32, timeout_ms: u64) -> WatchdogState {
    WatchdogState {
        timeout_ms,
        scratch_marker: WATCHDOG_SCRATCH0_VALUE,
        reset_detected: is_watchdog_reset(scratch),
    }
}

/// The operations that arm the watchdog, in order: the marker is rewritten
/// before the countdown starts.
pub open spec fn arming_ops(state: WatchdogState) -> Seq<WatchdogOp> {
    seq![
        WatchdogOp::PauseOnDebug(true),
        WatchdogOp::WriteScratch(state.scratch_marker),
        WatchdogOp::Start(state.timeout_ms),
    ]
}

/// Scratch register 0 after `ops` ran on a register holding `scratch`.
pub open spec fn scratch_after(ops: Seq<WatchdogOp>, scratch: u32) -> u32
    decreases ops.len(),
{
    if ops.len() == 0 {
        scratch
    } else {
        let rest = scratch_after(ops.drop_last(), scratch);
        match ops.last() {
            WatchdogOp::WriteScratch(v) => v,
            _ => rest,
        }
    }
}

/// Interval between two feeds for a watchdog armed with `timeout_ms`.
pub open spec fn feed_interval(timeout_ms: int) -> int {
    timeout_ms / 2
}

/// Whether a watchdog armed with `timeout_ms` expires between two of the feed
/// instants `feeds` (in milliseconds, in order).
pub open spec fn lapses(timeout_ms: int, feeds: Seq<int>) -> bool {
    exists|k: int| 0 <= k < feeds.len() - 1 && #[trigger] feeds[k + 1] - feeds[k] >= timeout_ms
}

/// Whether scratch value `scratch` shows that the last reset kept power.
pub fn reset_detected(scratch: u32) -> (r: bool)
    ensures
        r == is_watchdog_reset(scratch),
{
    scratch == WATCHDOG_SCRATCH0_VALUE
}

/// How often the feeder restarts a watchdog armed with `timeout_ms`.
pub fn feed_interval_ms(timeout_ms: u64) -> (r: u64)
    ensures
        r as int == feed_interval(timeout_ms as int),
        timeout_ms > 0 ==> r < timeout_ms,
{
    timeout_ms / 2
}

impl WatchdogState {
    /// Classifies the previous reset from the scratch value read at boot, for
    /// a watchdog to be armed with `timeout_ms`.
    pub fn boot(scratch: u32, timeout_ms: u64) -> (r: WatchdogState)
        ensures
            r == boot_state(scratch, timeout_ms),
    {
        WatchdogState {
            timeout_ms,
            scratch_marker: WATCHDOG_SCRATCH0_VALUE,
            reset_detected: reset_detected(scratch),
        }
    }

    /// The operations that arm the watchdog, to be run in order.
    pub fn arming_sequence(&self) -> (r: Vec<WatchdogOp>)
        ensures
            r@ == arming_ops(*self),
    {
        let mut ops: Vec<WatchdogOp> = Vec::new();
        ops.push(WatchdogOp::PauseOnDebug(true));
        ops.push(WatchdogOp::WriteScratch(self.scratch_marker));
        ops.push(WatchdogOp::Start(self.timeout_ms));
        assert(ops@ =~= arming_ops(*self));
        ops
    }
}

/// The previous reset is reported exactly when the scratch value read equals
/// the marker, and the marker is written back before the countdown is armed,
/// whatever was read.
pub proof fn lemma_boot_classification(scratch: u32, timeout_ms: u64)
    ensures
        boot_state(scratch, timeout_ms).reset_detected <==> scratch == WATCHDOG_SCRATCH0_VALUE,
        ({
            let ops = arming_ops(boot_state(scratch, timeout_ms));
            &&& ops[1] == WatchdogOp::WriteScratch(WATCHDOG_SCRATCH0_VALUE)
            &&& ops[2] == WatchdogOp::Start(timeout_ms)
            &&& forall|k: int| 0 <= k < 2 ==> !(#[trigger] ops[k] is Start)
        }),
{
}

/// After arming, the register holds the marker whatever it held before, so a
/// warm reset at any later point (one that keeps the register, such as a
/// watchdog expiry) is reported at the next boot.
pub proof fn lemma_warm_reset_detected(scratch: u32, timeout_ms: u64, next_timeout_ms: u64)
    ensures
        scratch_after(arming_ops(boot_state(scratch, timeout_ms)), scratch)
            == WATCHDOG_SCRATCH0_VALUE,
        boot_state(
            scratch_after(arming_ops(boot_state(scratch, timeout_ms)), scratch),
            next_timeout_ms,
        ).reset_detected,
{
    let ops = arming_ops(boot_state(scratch, timeout_ms));
    assert(ops.drop_last().last() == WatchdogOp::WriteScratch(WATCHDOG_SCRATCH0_VALUE));
    assert(scratch_after(ops.drop_last(), scratch) == WATCHDOG_SCRATCH0_VALUE);
}

/// The feed interval is shorter than the timeout; so when every feed follows
/// the one before by at most the interval plus a scheduling latency that stays
/// under the remaining margin, the countdown never expires.
pub proof fn lemma_feeder_keeps_watchdog_alive(timeout_ms: u64, latency_ms: int, feeds: Seq<int>)
    requires
        timeout_ms > 0,
        0 <= latency_ms < timeout_ms - feed_interval(timeout_ms as int),
        forall|k: int|
            0 <= k < feeds.len() - 1 ==> #[trigger] feeds[k + 1] - feeds[k] <= feed_interval(
                timeout_ms as int,
            ) + latency_ms,
    ensures
        feed_interval(timeout_ms as int) < timeout_ms,
        !lapses(timeout_ms as int, feeds),
{
}

} // verus!
