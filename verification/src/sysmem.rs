//! The trusted boundary to the host: the OS stat handle and the lock
//! around it. Everything here is believed, not proved; each item's comment
//! names the outside function it relies on.

use vstd::prelude::*;

use crate::metrics::MemoryReading;

verus! {

#[verifier::external_type_specification]
#[verifier::external_body]
pub struct ExSystem(sysinfo::System);

#[verifier::external_type_specification]
#[verifier::external_body]
#[verifier::reject_recursive_types(T)]
pub struct ExMutex<T: ?Sized>(std::sync::Mutex<T>);

/// Relies on sysinfo's `System::new_with_specifics` called with a
/// memory-only `RefreshKind`: the handle fetches memory and swap counters
/// and nothing else (no CPU, process or disk data).
#[verifier::external_body]
pub(crate) fn new_memory_system() -> sysinfo::System {
    sysinfo::System::new_with_specifics(
        sysinfo::RefreshKind::nothing().with_memory(sysinfo::MemoryRefreshKind::everything()),
    )
}

/// Relies on `std::sync::Mutex::new`: wraps the snapshot in a
/// mutual-exclusion lock.
#[verifier::external_body]
pub(crate) fn new_system_lock(system: sysinfo::System) -> std::sync::Mutex<sysinfo::System> {
    std::sync::Mutex::new(system)
}

/// Relies on `std::sync::Mutex::lock`, sysinfo's `System::refresh_memory`,
/// and its six accessors `total_memory`, `used_memory`, `free_memory`,
/// `total_swap`, `used_swap`, `free_swap` (all unsigned counters in the
/// host's native units). The lock is held across the refresh and all six
/// reads, so one call's counters come from one refresh and two overlapping
/// calls never observe a half-refreshed snapshot. The values themselves are
/// whatever the live host reports, so nothing is promised of them. Panics
/// only on a poisoned lock, that is, only if an earlier holder panicked.
#[verifier::external_body]
pub(crate) fn refresh_and_read(lock: &std::sync::Mutex<sysinfo::System>) -> MemoryReading {
    let mut system = lock.lock().expect("memory snapshot lock poisoned");
    system.refresh_memory();
    MemoryReading {
        mem_total: system.total_memory(),
        mem_used: system.used_memory(),
        mem_free: system.free_memory(),
        swap_total: system.total_swap(),
        swap_used: system.used_swap(),
        swap_free: system.free_swap(),
    }
}

} // verus!
