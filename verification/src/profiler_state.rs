//! Predicates over the profiler's packed state word.
//!
//! The profiler keeps its activity state and feature bits packed into one
//! atomic 32-bit word that lives on the host side; callers sample that word
//! (and, where needed, whether the current thread is registered for
//! profiling) and evaluate these predicates on the sampled values.

use vstd::prelude::*;

verus! {

/// Bit set while the profiler is active.
pub const PROFILER_ACTIVE: u32 = 1u32 << 31;

/// Bit set while the profiler is paused.
pub const PROFILER_PAUSED: u32 = 1u32 << 30;

/// Bit set while ETW collection is enabled.
pub const PROFILER_ETW_COLLECTION: u32 = 1u32 << 29;

/// Bit set while Perfetto tracing is enabled.
pub const PROFILER_PERFETTO_TRACING: u32 = 1u32 << 28;

/// Whether the profiler is currently active.
pub fn is_active(active_and_features: u32) -> (r: bool)
    ensures
        r == ((active_and_features & PROFILER_ACTIVE) != 0),
{
    (active_and_features & PROFILER_ACTIVE) != 0
}

/// Whether the profiler is currently active and not paused.
pub fn is_active_and_unpaused(active_and_features: u32) -> (r: bool)
    ensures
        r == ((active_and_features & PROFILER_ACTIVE) != 0 && (active_and_features
            & PROFILER_PAUSED) == 0),
{
    (active_and_features & PROFILER_ACTIVE) != 0 && (active_and_features & PROFILER_PAUSED) == 0
}

/// Whether ETW is collecting markers.
fn is_etw_collecting_markers(active_and_features: u32) -> (r: bool)
    ensures
        r == ((active_and_features & PROFILER_ETW_COLLECTION) != 0),
{
    (active_and_features & PROFILER_ETW_COLLECTION) != 0
}

/// Whether Perfetto tracing is running.
fn is_perfetto_tracing(active_and_features: u32) -> (r: bool)
    ensures
        r == ((active_and_features & PROFILER_PERFETTO_TRACING) != 0),
{
    (active_and_features & PROFILER_PERFETTO_TRACING) != 0
}

/// Whether the current thread is being profiled: the profiler must be
/// active and unpaused, and the thread registered for the profiling
/// features asked about (`thread_registered`, as reported by the host for
/// the sampled moment).
fn current_thread_is_being_profiled(active_and_features: u32, thread_registered: bool) -> (r: bool)
    ensures
        r == ((active_and_features & PROFILER_ACTIVE) != 0 && (active_and_features
            & PROFILER_PAUSED) == 0 && thread_registered),
{
    if !is_active_and_unpaused(active_and_features) {
        return false;
    }
    thread_registered
}

/// Whether the profiler can accept markers from the current thread: the
/// thread is being profiled for markers, or ETW is collecting, or Perfetto
/// is tracing.  Callers use this to skip potentially expensive marker
/// payload work.
pub fn current_thread_is_being_profiled_for_markers(
    active_and_features: u32,
    thread_registered_for_markers: bool,
) -> (r: bool)
    ensures
        r == (((active_and_features & PROFILER_ACTIVE) != 0 && (active_and_features
            & PROFILER_PAUSED) == 0 && thread_registered_for_markers) || (active_and_features
            & PROFILER_ETW_COLLECTION) != 0 || (active_and_features & PROFILER_PERFETTO_TRACING)
            != 0),
{
    current_thread_is_being_profiled(active_and_features, thread_registered_for_markers)
        || is_etw_collecting_markers(active_and_features) || is_perfetto_tracing(
        active_and_features,
    )
}

} // verus!
