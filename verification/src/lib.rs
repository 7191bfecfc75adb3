//! A single-host rolling-window bandwidth quota enforcer.
//!
//! The daemon tallies cumulative egress bytes over all network interfaces,
//! persists the tally as a checkpoint, and throttles every interface once the
//! bytes used in the current window exceed a ceiling, until the window rolls
//! over. This library holds the accounting and decision logic: exact
//! unbounded counter arithmetic, the checkpoint record with its recovery
//! heuristic, and the step functions of the three scheduler loops. Reading
//! the counters, sleeping, locking and the files live with the caller.

pub mod bigint;
pub mod checkpoint;
pub mod clock;
pub mod counter;
pub mod scheduler;
pub mod settings;
