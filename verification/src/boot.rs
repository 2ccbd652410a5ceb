//! Per-core boot and trap-vector sequencing.
//!
//! The primary core clears the uninitialized-data region exactly once,
//! initializes its trap vector and per-core bookkeeping, brings the early
//! console and timer up, and only then transfers control to the kernel's
//! generic entry point. A secondary core initializes its trap vector and
//! bookkeeping only; an external core-release barrier keeps it parked until
//! the primary core has finished the bring-up steps it depends on.

use vstd::prelude::*;

verus! {

/// Transient per-core record of the entry protocol: which bring-up steps
/// this core has completed. It exists only during bring-up.
pub struct BootRecord {
    /// The hardware id of this core.
    pub core_id: usize,
    /// Pointer to the boot information blob the firmware handed over;
    /// zero on secondary cores, which receive none.
    pub boot_info: usize,
    /// This core booted first and runs the platform bring-up.
    pub is_primary: bool,
    /// The uninitialized-data region has been cleared by this core.
    pub bss_cleared: bool,
    /// The trap vector of this core points at the kernel's handlers.
    pub trap_vector_initialized: bool,
    /// Per-core bookkeeping is set up.
    pub percpu_initialized: bool,
    /// The early console is usable (primary core only).
    pub early_console_initialized: bool,
    /// The early timer is usable (primary core only).
    pub early_timer_initialized: bool,
}

/// The primary core's entry protocol, run exactly once at reset before any
/// driver touches shared device state: clear the uninitialized-data
/// region, initialize the trap vector, set up per-core bookkeeping, and
/// bring the early console and timer up, in that order. The caller then
/// transfers control to the kernel's generic entry point with the
/// returned record.
pub fn primary_entry(core_id: usize, boot_info: usize) -> (r: BootRecord)
    ensures
        r.core_id == core_id,
        r.boot_info == boot_info,
        r.is_primary,
        r.bss_cleared,
        r.trap_vector_initialized,
        r.percpu_initialized,
        r.early_console_initialized,
        r.early_timer_initialized,
{
    let mut record = BootRecord {
        core_id,
        boot_info,
        is_primary: true,
        bss_cleared: false,
        trap_vector_initialized: false,
        percpu_initialized: false,
        early_console_initialized: false,
        early_timer_initialized: false,
    };
    record.bss_cleared = true;
    record.trap_vector_initialized = true;
    record.percpu_initialized = true;
    record.early_console_initialized = true;
    record.early_timer_initialized = true;
    record
}

/// A secondary core's entry protocol: trap vector and per-core bookkeeping
/// only — the data region was already cleared by the primary core and is
/// never cleared again. The caller then transfers control to the kernel's
/// secondary entry point.
pub fn secondary_entry(core_id: usize) -> (r: BootRecord)
    ensures
        r.core_id == core_id,
        r.boot_info == 0,
        !r.is_primary,
        !r.bss_cleared,
        r.trap_vector_initialized,
        r.percpu_initialized,
        !r.early_console_initialized,
        !r.early_timer_initialized,
{
    let mut record = BootRecord {
        core_id,
        boot_info: 0,
        is_primary: false,
        bss_cleared: false,
        trap_vector_initialized: false,
        percpu_initialized: false,
        early_console_initialized: false,
        early_timer_initialized: false,
    };
    record.trap_vector_initialized = true;
    record.percpu_initialized = true;
    record
}

/// What a secondary core sets up for itself once it is released: its
/// interface to the interrupt controller and its own timer.
pub struct PerCoreInit {
    /// This core's interrupt-controller interface is live.
    pub gic_cpu_ready: bool,
    /// This core's timer is programmed.
    pub timer_ready: bool,
}

} // verus!
