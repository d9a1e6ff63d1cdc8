use vstd::prelude::*;

verus! {

/// The subsystems that the boot supervisor starts, in this order.
#[derive(Debug, Clone, Copy, PartialEq, Eq, Structural)]
pub enum Subsystem {
    Position,
    Inertial,
    Display,
}

/// What the firmware is asked to do next during boot.
#[derive(Debug, Clone, Copy, PartialEq, Eq, Structural)]
pub enum BootAction {
    /// Classify the previous reset and arm the hardware watchdog.
    ArmWatchdog,
    /// Schedule the task that feeds the watchdog.
    SpawnFeeder,
    /// Schedule the log transport task.
    SpawnLogger,
    /// Suspend once so that scheduled tasks begin to run.
    Yield,
    /// Log the previous reset and the crash message, if any.
    ReportDiagnostics,
    /// Schedule the task of one subsystem.
    StartSubsystem(Subsystem),
    /// Log that boot is complete.
    AnnounceComplete,
    /// Enter the rotation measurement loop, for good.
    RunRotation,
    /// A task could not be scheduled: stop, as a fatal fault.
    Halt,
}

/// Whether `a` schedules a task.
pub open spec fn is_spawn(a: BootAction) -> bool {
    a is SpawnFeeder || a is SpawnLogger || a is StartSubsystem
}

/// The boot sequence; `stream_log` says whether a log transport task runs.
pub open spec fn boot_actions(stream_log: bool) -> Seq<BootAction> {
    if stream_log {
        seq![
            BootAction::ArmWatchdog,
            BootAction::SpawnFeeder,
            BootAction::Yield,
            BootAction::SpawnLogger,
            BootAction::Yield,
            BootAction::ReportDiagnostics,
            BootAction::StartSubsystem(Subsystem::Position),
            BootAction::Yield,
            BootAction::StartSubsystem(Subsystem::Inertial),
            BootAction::Yield,
            BootAction::StartSubsystem(Subsystem::Display),
            BootAction::Yield,
            BootAction::Yield,
            BootAction::AnnounceComplete,
        ]
    } else {
        seq![
            BootAction::ArmWatchdog,
            BootAction::SpawnFeeder,
            BootAction::Yield,
            BootAction::Yield,
            BootAction::ReportDiagnostics,
            BootAction::StartSubsystem(Subsystem::Position),
            BootAction::Yield,
            BootAction::StartSubsystem(Subsystem::Inertial),
            BootAction::Yield,
            BootAction::StartSubsystem(Subsystem::Display),
            BootAction::Yield,
            BootAction::Yield,
            BootAction::AnnounceComplete,
        ]
    }
}

/// The boot sequence as a vector.
pub fn boot_plan(stream_log: bool) -> (r: Vec<BootAction>)
    ensures
        r@ == boot_actions(stream_log),
{
    let mut plan: Vec<BootAction> = Vec::new();
    plan.push(BootAction::ArmWatchdog);
    plan.push(BootAction::SpawnFeeder);
    plan.push(BootAction::Yield);
    if stream_log {
        plan.push(BootAction::SpawnLogger);
    }
    plan.push(BootAction::Yield);
    plan.push(BootAction::ReportDiagnostics);
    plan.push(BootAction::StartSubsystem(Subsystem::Position));
    plan.push(BootAction::Yield);
    plan.push(BootAction::StartSubsystem(Subsystem::Inertial));
    plan.push(BootAction::Yield);
    plan.push(BootAction::StartSubsystem(Subsystem::Display));
    plan.push(BootAction::Yield);
    plan.push(BootAction::Yield);
    plan.push(BootAction::AnnounceComplete);
    assert(plan@ =~= boot_actions(stream_log));
    plan
}

/// Steps the firmware through the boot sequence, one action at a time.
pub struct BootSupervisor {
    stream_log: bool,
    plan: Vec<BootAction>,
    next: usize,
    halted: bool,
}

impl BootSupervisor {
    /// Whether a log transport task is part of the sequence.
    pub closed spec fn spec_stream_log(&self) -> bool {
        self.stream_log
    }

    /// How many actions of the sequence were handed out.
    pub closed spec fn spec_next(&self) -> nat {
        self.next as nat
    }

    /// Whether boot stopped on a scheduling failure.
    pub closed spec fn spec_halted(&self) -> bool {
        self.halted
    }

    pub closed spec fn wf(&self) -> bool {
        &&& self.plan@ == boot_actions(self.stream_log)
        &&& self.next <= self.plan@.len()
    }

    /// A supervisor at the start of the sequence.
    pub fn new(stream_log: bool) -> (r: BootSupervisor)
        ensures
            r.wf(),
            r.spec_stream_log() == stream_log,
            r.spec_next() == 0,
            !r.spec_halted(),
    {
        BootSupervisor { stream_log, plan: boot_plan(stream_log), next: 0, halted: false }
    }

    /// The next action, given whether the previous one succeeded (a spawn may
    /// fail when the scheduler's task table is full). A failure halts boot for
    /// good; after the sequence the rotation loop runs.
    pub fn step(&mut self, previous_ok: bool) -> (r: BootAction)
        requires
            old(self).wf(),
        ensures
            final(self).wf(),
            final(self).spec_stream_log() == old(self).spec_stream_log(),
            old(self).spec_halted() || !previous_ok ==> r == BootAction::Halt
                && final(self).spec_halted() && final(self).spec_next() == old(self).spec_next(),
            !old(self).spec_halted() && previous_ok && old(self).spec_next() < boot_actions(
                old(self).spec_stream_log(),
            ).len() ==> r == boot_actions(old(self).spec_stream_log())[old(self).spec_next() as int]
                && !final(self).spec_halted() && final(self).spec_next() == old(self).spec_next()
                + 1,
            !old(self).spec_halted() && previous_ok && old(self).spec_next() >= boot_actions(
                old(self).spec_stream_log(),
            ).len() ==> r == BootAction::RunRotation && !final(self).spec_halted()
                && final(self).spec_next() == old(self).spec_next(),
    {
        if self.halted || !previous_ok {
            self.halted = true;
            return BootAction::Halt;
        }
        if self.next < self.plan.len() {
            let a = self.plan[self.next];
            self.next = self.next + 1;
            a
        } else {
            BootAction::RunRotation
        }
    }
}

/// The watchdog is armed first and its feeder scheduled next, before any
/// subsystem; every scheduled task is followed at once by a yield; and boot
/// is announced complete last, after two yields that follow the last
/// subsystem.
pub proof fn lemma_boot_order(stream_log: bool)
    ensures
        ({
            let a = boot_actions(stream_log);
            &&& a[0] == BootAction::ArmWatchdog
            &&& a[1] == BootAction::SpawnFeeder
            &&& forall|j: int| 0 <= j < a.len() && (#[trigger] a[j]) is StartSubsystem ==> 1 < j
            &&& forall|j: int| 0 <= j < a.len() && is_spawn(#[trigger] a[j]) ==> j + 1 < a.len()
                && a[j + 1] == BootAction::Yield
            &&& a[a.len() - 1] == BootAction::AnnounceComplete
            &&& a[a.len() - 2] == BootAction::Yield
            &&& a[a.len() - 3] == BootAction::Yield
            &&& a[a.len() - 4] == BootAction::StartSubsystem(Subsystem::Display)
        }),
{
}

} // verus!
