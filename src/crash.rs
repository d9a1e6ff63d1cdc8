use vstd::prelude::*;
use crate::values::WATCHDOG_SCRATCH0_VALUE;
use crate::watchdog::{boot_state, is_watchdog_reset, WatchdogState};

verus! {

/// Value the fault handler leaves in scratch register 0, so that the next boot
/// tells a fault reset from a hang.
pub const FAULT_SCRATCH_VALUE: u32 = 0;

/// One step of the fatal-error handler.
#[derive(Debug, Clone, Copy, PartialEq, Eq, Structural)]
pub enum FaultStep {
    /// Store the fault message in the reset-surviving region.
    PersistMessage,
    /// Write scratch register 0.
    WriteScratch(u32),
    /// Reset the device at once.
    TriggerReset,
}

/// The fault handler's steps, in order: persist, clear the marker, reset.
pub open spec fn fault_steps() -> Seq<FaultStep> {
    seq![FaultStep::PersistMessage, FaultStep::WriteScratch(FAULT_SCRATCH_VALUE), FaultStep::TriggerReset]
}

/// Scratch register 0 after the fault handler ran.
pub open spec fn scratch_after_fault() -> u32 {
    FAULT_SCRATCH_VALUE
}

/// The line logged at boot for a message left by the previous run's fault.
pub open spec fn crash_line(message: Seq<char>) -> Seq<char> {
    "[boot] "@ + message
}

/// The warnings logged at boot: the watchdog reset first, then the crash
/// message, each only where present.
pub open spec fn boot_warnings(reset_detected: bool, crash: Option<Seq<char>>) -> Seq<Seq<char>> {
    let first: Seq<Seq<char>> = if reset_detected {
        seq!["[boot] Watchdog reset!"@]
    } else {
        Seq::empty()
    };
    match crash {
        Some(m) => first.push(crash_line(m)),
        None => first,
    }
}

/// The record after `message` was stored in it.
pub open spec fn stored(message: Seq<char>) -> Option<Seq<char>> {
    Some(message)
}

/// What a read of `record` hands out, and the record after that read.
pub open spec fn taken(record: Option<Seq<char>>) -> (Option<Seq<char>>, Option<Seq<char>>) {
    (record, None)
}

/// The view of an optional string.
pub open spec fn opt_view(s: Option<String>) -> Option<Seq<char>> {
    match s {
        Some(m) => Some(m@),
        None => None,
    }
}

/// The steps the fatal-error handler takes, to be run in order.
pub fn fault_sequence() -> (r: Vec<FaultStep>)
    ensures
        r@ == fault_steps(),
{
    let mut steps: Vec<FaultStep> = Vec::new();
    steps.push(FaultStep::PersistMessage);
    steps.push(FaultStep::WriteScratch(FAULT_SCRATCH_VALUE));
    steps.push(FaultStep::TriggerReset);
    assert(steps@ =~= fault_steps());
    steps
}

/// The warning lines for the boot described by `state`, given the crash
/// message that the reset-surviving region held, if any.
pub fn boot_report(state: &WatchdogState, crash_message: Option<&str>) -> (r: Vec<String>)
    ensures
        r@.map_values(|s: String| s@) == boot_warnings(
            state.reset_detected,
            match crash_message {
                Some(m) => Some(m@),
                None => None,
            },
        ),
{
    let mut lines: Vec<String> = Vec::new();
    if state.reset_detected {
        lines.push(String::from_str("[boot] Watchdog reset!"));
    }
    let ghost first = lines@.map_values(|s: String| s@);
    match crash_message {
        Some(m) => {
            lines.push(String::from_str("[boot] ").concat(m));
            assert(lines@.map_values(|s: String| s@) =~= first.push(crash_line(m@)));
        },
        None => {},
    }
    assert(lines@.map_values(|s: String| s@) =~= boot_warnings(
        state.reset_detected,
        match crash_message {
            Some(m) => Some(m@),
            None => None,
        },
    ));
    lines
}

/// The reset-surviving diagnostic record: at most one message, handed out
/// once.
pub struct CrashRecord {
    message: Option<String>,
}

impl View for CrashRecord {
    type V = Option<Seq<char>>;

    closed spec fn view(&self) -> Option<Seq<char>> {
        match self.message {
            Some(m) => Some(m@),
            None => None,
        }
    }
}

impl CrashRecord {
    /// An empty record.
    pub fn new() -> (r: CrashRecord)
        ensures
            r@ == None::<Seq<char>>,
    {
        CrashRecord { message: None }
    }

    /// Stores `message`, replacing whatever was there.
    pub fn store(&mut self, message: &str)
        ensures
            final(self)@ == stored(message@),
    {
        self.message = Some(String::from_str(message));
    }

    /// Whether a message waits to be read.
    pub fn is_present(&self) -> (r: bool)
        ensures
            r == (self@ is Some),
    {
        self.message.is_some()
    }

    /// Hands out the stored message, if any, and empties the record.
    pub fn take(&mut self) -> (r: Option<String>)
        ensures
            (opt_view(r), final(self)@) == taken(old(self)@),
    {
        let r = self.message.take();
        r
    }
}

/// A message stored during a fault is handed out, and logged, by the first
/// read at the next boot, whatever the record held before; the read after
/// that finds nothing and logs nothing.
pub proof fn lemma_crash_message_once(message: Seq<char>)
    ensures
        taken(stored(message)).0 == Some(message),
        boot_warnings(false, taken(stored(message)).0) == seq![crash_line(message)],
        taken(taken(stored(message)).1).0 == None::<Seq<char>>,
        boot_warnings(false, taken(taken(stored(message)).1).0).len() == 0,
{
    assert(boot_warnings(false, Some(message)) =~= seq![crash_line(message)]);
}

/// A fault reset is not taken for a watchdog reset at the next boot: the
/// handler writes the register before it resets.
pub proof fn lemma_fault_reset_not_watchdog(timeout_ms: u64)
    ensures
        fault_steps()[1] == FaultStep::WriteScratch(scratch_after_fault()),
        fault_steps()[2] == FaultStep::TriggerReset,
        !is_watchdog_reset(scratch_after_fault()),
        !boot_state(scratch_after_fault(), timeout_ms).reset_detected,
{
    assert(FAULT_SCRATCH_VALUE != WATCHDOG_SCRATCH0_VALUE);
}

} // verus!
