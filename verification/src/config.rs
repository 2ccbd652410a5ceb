//! Per-platform configuration: physical base addresses and interrupt numbers
//! of each device, fixed at build time. Nothing here is probed at runtime.
//!
//! Addresses are carried as 64-bit values; the platform's physical address
//! space is 48 bits wide.

use vstd::prelude::*;

verus! {

/// Offset added to a physical address to obtain the virtual address at which
/// the kernel maps all of physical memory.
pub const PHYS_VIRT_OFFSET: u64 = 0xffff_0000_0000_0000;

/// Physical addresses stay below this bound: the platform decodes 48 bits.
pub const PHYS_ADDR_LIMIT: u64 = 0x1_0000_0000_0000;

/// Physical base address of the PL061 GPIO controller register page.
pub const PL061_PADDR: u64 = 0x0903_0000;

/// GPIO edge interrupt line, as a shared-peripheral interrupt number
/// (before translation to a GIC interrupt id).
pub const GPIO_IRQ: usize = 7;

/// Physical base address of the direct-mapped watchdog register page.
pub const WDT_PADDR: u64 = 0x2804_0000;

/// Watchdog interrupt line at the interrupt controller.
pub const WATCHDOG_IRQ_NUM: usize = 196;

/// Physical base address of the PCI configuration space window.
pub const PCI_ECAM_BASE: u64 = 0x40_1000_0000;

/// Physical base address of the bus-attached watchdog's memory window,
/// programmed into its base-address register at bring-up.
pub const WDT_MEM_PADDR: u64 = 0x1000_8000;

} // verus!
