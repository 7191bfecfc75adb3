//! Daemon configuration, immutable for the life of the process.

use vstd::prelude::*;

verus! {

/// All intervals and bounds the three loops go by. Loaded once at startup;
/// when no settings were persisted, the documented defaults below are used
/// and written out.
#[derive(Clone, Copy, Debug, PartialEq, Eq)]
pub struct Settings {
    /// Cadence of the persistence loop, in milliseconds.
    pub save_interval_ms: u64,
    /// Cadence of the quota-check loop, in milliseconds.
    pub check_interval_ms: u64,
    /// Delta since the baseline that triggers an out-of-cadence persist.
    pub save_every_n_bytes: u64,
    /// Length of the rolling accounting window, in milliseconds.
    pub capture_timeframe_ms: u64,
    /// Quota ceiling for one window, in bytes.
    pub max_bytes: u64,
    /// Rate limit handed to the shaper when throttling, in bytes per second.
    pub lower_limit_bytes: u64,
    /// Burst allowance handed to the shaper when throttling.
    pub burst_buffer_size: u64,
    /// Queueing latency bound handed to the shaper when throttling.
    pub buffer_latency_ms: u64,
}

impl Default for Settings {
    /// The defaults written out when no settings file exists: save every
    /// minute, check every ten seconds, persist out of cadence every 64 MiB,
    /// a one-week window with a 1 TiB ceiling, and shape to 64 KiB/s with a
    /// 4 KiB burst and 50 ms latency bound.
    fn default() -> (s: Settings)
        ensures
            s.save_interval_ms == 1000 * 60,
            s.check_interval_ms == 1000 * 10,
            s.save_every_n_bytes == 1024 * 1024 * 64,
            s.capture_timeframe_ms == 1000 * 60 * 60 * 24 * 7,
            s.max_bytes == 1024 * 1024 * 1024 * 1024,
            s.lower_limit_bytes == 64 * 1024,
            s.burst_buffer_size == 4096,
            s.buffer_latency_ms == 50,
    {
        Settings {
            save_interval_ms: 1000 * 60,
            check_interval_ms: 1000 * 10,
            save_every_n_bytes: 1024 * 1024 * 64,
            capture_timeframe_ms: 1000 * 60 * 60 * 24 * 7,
            max_bytes: 1024 * 1024 * 1024 * 1024,
            lower_limit_bytes: 64 * 1024,
            burst_buffer_size: 4096,
            buffer_latency_ms: 50,
        }
    }
}

} // verus!
