use vstd::prelude::*;

verus! {

/// Liveness window of the hardware watchdog, in milliseconds.
pub const WATCHDOG_TIMER_MS: u64 = 1000;

/// Marker written to watchdog scratch register 0 at every boot.
pub const WATCHDOG_SCRATCH0_VALUE: u32 = 0xDEADBEEF;

/// Pacing of the display refresh loop, in milliseconds.
pub const OSD_REFRESH_MS: u64 = 20;

/// Diameter of the measured wheel, in millimetres.
pub const WHEEL_DIAMETER_MM: u64 = 650;

/// Milliseconds in one minute.
pub const MS_PER_MINUTE: u64 = 60_000;

/// Alternating edge events seen during one wheel revolution.
pub const EDGES_PER_REVOLUTION: u64 = 4;

/// Calibration constant of the RPM formula: `rpm = RPM_CALIBRATION / elapsed_ms`.
pub const RPM_CALIBRATION: u64 = MS_PER_MINUTE / EDGES_PER_REVOLUTION;

} // verus!
