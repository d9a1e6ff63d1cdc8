use onboard::boot::{boot_plan, BootAction, BootSupervisor, Subsystem};
use onboard::crash::{boot_report, fault_sequence, CrashRecord, FaultStep, FAULT_SCRATCH_VALUE};
use onboard::values::{WATCHDOG_SCRATCH0_VALUE, WATCHDOG_TIMER_MS};
use onboard::watchdog::{feed_interval_ms, reset_detected, WatchdogOp, WatchdogState};

#[test]
fn cold_boot_not_detected() {
    let s = WatchdogState::boot(0x1234_5678, WATCHDOG_TIMER_MS);
    assert!(!s.reset_detected);
    assert_eq!(s.timeout_ms, 1000);
    assert_eq!(s.scratch_marker, 0xDEADBEEF);
    assert_eq!(
        s.arming_sequence(),
        vec![
            WatchdogOp::PauseOnDebug(true),
            WatchdogOp::WriteScratch(0xDEADBEEF),
            WatchdogOp::Start(1000),
        ]
    );
    assert!(boot_report(&s, None).is_empty());
}

#[test]
fn warm_boot_detected() {
    let s = WatchdogState::boot(WATCHDOG_SCRATCH0_VALUE, WATCHDOG_TIMER_MS);
    assert!(s.reset_detected);
    assert_eq!(boot_report(&s, None), vec!["[boot] Watchdog reset!".to_string()]);
}

#[test]
fn classification_of_scratch_values() {
    assert!(reset_detected(0xDEADBEEF));
    assert!(!reset_detected(0));
    assert!(!reset_detected(0xDEADBEEE));
}

#[test]
fn feed_interval_is_half_timeout() {
    assert_eq!(feed_interval_ms(1000), 500);
    assert_eq!(feed_interval_ms(1), 0);
    assert_eq!(feed_interval_ms(u64::MAX), u64::MAX / 2);
    assert!(feed_interval_ms(WATCHDOG_TIMER_MS) < WATCHDOG_TIMER_MS);
}

#[test]
fn fault_steps_in_order() {
    assert_eq!(
        fault_sequence(),
        vec![FaultStep::PersistMessage, FaultStep::WriteScratch(0), FaultStep::TriggerReset]
    );
    assert!(!reset_detected(FAULT_SCRATCH_VALUE));
}

#[test]
fn crash_message_logged_once() {
    let mut region = CrashRecord::new();
    assert!(!region.is_present());
    region.store("inertial sensor init failed");
    assert!(region.is_present());

    let s = WatchdogState::boot(FAULT_SCRATCH_VALUE, WATCHDOG_TIMER_MS);
    let first = region.take();
    assert_eq!(first.as_deref(), Some("inertial sensor init failed"));
    assert_eq!(
        boot_report(&s, first.as_deref()),
        vec!["[boot] inertial sensor init failed".to_string()]
    );
    assert!(!region.is_present());

    let second = region.take();
    assert_eq!(second, None);
    assert!(boot_report(&s, second.as_deref()).is_empty());
}

#[test]
fn store_replaces_message() {
    let mut region = CrashRecord::new();
    region.store("first");
    region.store("second");
    assert_eq!(region.take().as_deref(), Some("second"));
}

#[test]
fn report_lists_watchdog_reset_before_crash() {
    let s = WatchdogState::boot(WATCHDOG_SCRATCH0_VALUE, WATCHDOG_TIMER_MS);
    assert_eq!(
        boot_report(&s, Some("boom")),
        vec!["[boot] Watchdog reset!".to_string(), "[boot] boom".to_string()]
    );
}

#[test]
fn boot_plan_without_stream_log() {
    assert_eq!(
        boot_plan(false),
        vec![
            BootAction::ArmWatchdog,
            BootAction::SpawnFeeder,
            BootAction::Yield,
            BootAction::Yield,
            BootAction::ReportDiagnostics,
            BootAction::StartSubsystem(Subsystem::Position),
            BootAction::Yield,
            BootAction::StartSubsystem(Subsystem::Inertial),
            BootAction::Yield,
            BootAction::StartSubsystem(Subsystem::Display),
            BootAction::Yield,
            BootAction::Yield,
            BootAction::AnnounceComplete,
        ]
    );
}

#[test]
fn supervisor_walks_plan_then_runs_rotation() {
    let mut sup = BootSupervisor::new(true);
    let plan = boot_plan(true);
    assert_eq!(plan.len(), 14);
    assert_eq!(plan[3], BootAction::SpawnLogger);
    assert_eq!(plan[4], BootAction::Yield);
    for a in plan.iter() {
        assert_eq!(sup.step(true), *a);
    }
    assert_eq!(sup.step(true), BootAction::RunRotation);
    assert_eq!(sup.step(true), BootAction::RunRotation);
}

#[test]
fn supervisor_halts_on_spawn_failure() {
    let mut sup = BootSupervisor::new(false);
    assert_eq!(sup.step(true), BootAction::ArmWatchdog);
    assert_eq!(sup.step(true), BootAction::SpawnFeeder);
    assert_eq!(sup.step(false), BootAction::Halt);
    assert_eq!(sup.step(true), BootAction::Halt);
}
