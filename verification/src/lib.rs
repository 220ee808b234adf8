//! Real-time runner for a cycle-stepped virtual machine core: pacing
//! strategies, cross-thread channel protocol, pull-based audio bridging and
//! input debouncing.

use vstd::prelude::*;

pub mod channel;
pub mod frame_slot;
pub mod perframe_runner_thread;
pub mod sound_source;
pub mod comlynx_runner_thread;
pub mod debounce;
pub mod runner;
pub mod timing;
pub mod runner_config;

verus! {

/// Frequency, in ticks per second, of the virtual crystal that the fixed-step
/// pacing strategy locks to.
pub const CRYSTAL_FREQUENCY: u32 = 16_000_000;

/// Rate, in samples per second, at which audio is harvested from the core.
pub const SAMPLE_RATE: u32 = 16_000;

/// Number of core ticks between two harvested audio samples.
pub const SAMPLE_TICKS: u32 = CRYSTAL_FREQUENCY / SAMPLE_RATE;

} // verus!
