//! Physical-to-virtual address translation.
//!
//! The kernel maps all of physical memory at a fixed offset, so translation
//! is one checked addition. The drivers carry addresses as plain 64-bit
//! values; the typed address wrappers of the `memory_addr` crate are
//! declared as opaque outside types and glued on at the boundary.

use vstd::prelude::*;
use crate::config::PHYS_ADDR_LIMIT;
use crate::config::PHYS_VIRT_OFFSET;

verus! {

/// Declares `memory_addr::PhysAddr` so it can stand in signatures; the type
/// is opaque to the verifier.
#[verifier::external_type_specification]
#[verifier::external_body]
pub struct ExPhysAddr(memory_addr::PhysAddr);

/// Declares `memory_addr::VirtAddr` so it can stand in signatures; the type
/// is opaque to the verifier.
#[verifier::external_type_specification]
#[verifier::external_body]
pub struct ExVirtAddr(memory_addr::VirtAddr);

/// The numeric address a `memory_addr::PhysAddr` wraps.
pub uninterp spec fn phys_addr_value(p: memory_addr::PhysAddr) -> usize;

/// The numeric address a `memory_addr::VirtAddr` wraps.
pub uninterp spec fn virt_addr_value(v: memory_addr::VirtAddr) -> usize;

/// Relies on memory_addr::PhysAddr::from_usize: the type is a transparent
/// wrapper holding exactly the given address.
pub assume_specification[ memory_addr::PhysAddr::from_usize ](addr: usize) -> (r:
    memory_addr::PhysAddr)
    ensures
        phys_addr_value(r) == addr,
;

/// Relies on memory_addr::PhysAddr::as_usize: returns the wrapped address.
pub assume_specification[ memory_addr::PhysAddr::as_usize ](p: memory_addr::PhysAddr) -> (r: usize)
    ensures
        r == phys_addr_value(p),
;

/// Relies on memory_addr::VirtAddr::from_usize: the type is a transparent
/// wrapper holding exactly the given address.
pub assume_specification[ memory_addr::VirtAddr::from_usize ](addr: usize) -> (r:
    memory_addr::VirtAddr)
    ensures
        virt_addr_value(r) == addr,
;

/// Relies on memory_addr::VirtAddr::as_usize: returns the wrapped address.
pub assume_specification[ memory_addr::VirtAddr::as_usize ](v: memory_addr::VirtAddr) -> (r: usize)
    ensures
        r == virt_addr_value(v),
;

/// The virtual address at which the kernel maps physical address `paddr`.
pub open spec fn spec_phys_to_virt(paddr: u64) -> u64 {
    (paddr + PHYS_VIRT_OFFSET) as u64
}

/// Translates a physical address into the kernel's linear mapping.
pub fn phys_to_virt(paddr: u64) -> (r: u64)
    requires
        paddr < PHYS_ADDR_LIMIT,
    ensures
        r == spec_phys_to_virt(paddr),
        r == paddr + PHYS_VIRT_OFFSET,
{
    paddr + PHYS_VIRT_OFFSET
}

/// Translates a typed physical address into the kernel's linear mapping,
/// keeping the `memory_addr` wrappers at the boundary.
pub fn phys_to_virt_addr(p: memory_addr::PhysAddr) -> (r: memory_addr::VirtAddr)
    requires
        phys_addr_value(p) + PHYS_VIRT_OFFSET <= usize::MAX,
    ensures
        virt_addr_value(r) == phys_addr_value(p) + PHYS_VIRT_OFFSET,
{
    let pa = p.as_usize();
    memory_addr::VirtAddr::from_usize(pa + (PHYS_VIRT_OFFSET as usize))
}

} // verus!
