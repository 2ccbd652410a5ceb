//! Bit-exact model of the PL061 GPIO controller's register window.
//!
//! The window is a fixed layout of 32-bit registers: `data` (0x000),
//! `dir` (0x400), `is` (0x404), `ibe` (0x408), `iev` (0x40C),
//! `ie` (0x410, interrupt enable, one bit per pin 0-7), `ris` (0x414,
//! raw interrupt status, read-only), `mis` (0x418, masked status,
//! read-only), `ic` (0x41C, interrupt clear, write-only, self-clearing)
//! and `afsel` (0x420). Only the eight pin bits of the interrupt
//! registers are wired; the upper bits read as zero and ignore writes.

use vstd::prelude::*;

verus! {

/// Number of GPIO pins on the PL061 controller.
pub const NUM_PINS: u32 = 8;

/// Mask covering the eight wired pin bits of a PL061 interrupt register.
pub const PIN_MASK: u32 = 0xff;

/// What the interrupt-enable register holds after a raw write of `v`:
/// the unwired upper bits ignore the write.
pub open spec fn ie_after_write(v: u32) -> u32 {
    v & PIN_MASK
}

/// What the raw-status register holds after the interrupt-clear register
/// is written with `v`: each wired bit set in `v` clears the matching
/// pending bit.
pub open spec fn ris_after_clear(ris: u32, v: u32) -> u32 {
    ris & !(v & PIN_MASK)
}

/// The PL061 register window, held as plain register values. The fields
/// mirror the hardware state that the driver logic reads and writes;
/// binding them to a volatile register page is the unverified caller's
/// part.
pub struct Pl061Regs {
    /// Virtual base address of the register page.
    pub base: u64,
    /// Pin data register.
    pub data: u32,
    /// Pin direction register.
    pub dir: u32,
    /// Interrupt sense register.
    pub isense: u32,
    /// Both-edge interrupt register.
    pub ibe: u32,
    /// Interrupt event register.
    pub iev: u32,
    /// Interrupt-enable register: one bit per pin 0-7.
    pub ie: u32,
    /// Raw interrupt status: one bit per pin, set by the controller when
    /// an edge event is latched, cleared only through the clear register.
    pub ris: u32,
    /// Alternate-function select register.
    pub afsel: u32,
}

impl Pl061Regs {
    /// The interrupt registers only ever hold wired pin bits.
    pub open spec fn wf(self) -> bool {
        &&& self.ie & PIN_MASK == self.ie
        &&& self.ris & PIN_MASK == self.ris
    }

    /// Overlays the register window at `base`, which must be the virtual
    /// mapping of the device's register page. The model starts from the
    /// controller's reset state: all registers clear.
    pub fn new(base: u64) -> (r: Pl061Regs)
        ensures
            r.wf(),
            r.base == base,
            r.ie == 0,
            r.ris == 0,
    {
        proof {
            assert(0u32 & PIN_MASK == 0u32) by (bit_vector);
        }
        Pl061Regs {
            base,
            data: 0,
            dir: 0,
            isense: 0,
            ibe: 0,
            iev: 0,
            ie: 0,
            ris: 0,
            afsel: 0,
        }
    }

    /// One aligned 32-bit load of the interrupt-enable register.
    pub fn read_ie(&self) -> (r: u32)
        ensures
            r == self.ie,
    {
        self.ie
    }

    /// One aligned 32-bit store to the interrupt-enable register. The
    /// unwired upper bits ignore the write.
    pub fn write_ie(&mut self, v: u32)
        requires
            old(self).wf(),
        ensures
            final(self).wf(),
            final(self).ie == ie_after_write(v),
            *final(self) == (Pl061Regs { ie: final(self).ie, ..*old(self) }),
    {
        proof {
            assert((v & PIN_MASK) & PIN_MASK == v & PIN_MASK) by (bit_vector);
        }
        self.ie = v & PIN_MASK;
    }

    /// One aligned 32-bit load of the raw interrupt status register.
    pub fn read_ris(&self) -> (r: u32)
        ensures
            r == self.ris,
    {
        self.ris
    }

    /// One aligned 32-bit load of the masked interrupt status register,
    /// which the controller derives from the raw status and the enable
    /// mask.
    pub fn read_mis(&self) -> (r: u32)
        ensures
            r == self.ris & self.ie,
    {
        self.ris & self.ie
    }

    /// One aligned 32-bit store to the write-only interrupt-clear
    /// register: each wired bit set in `v` clears the matching pending
    /// bit of the raw status.
    pub fn write_ic(&mut self, v: u32)
        requires
            old(self).wf(),
        ensures
            final(self).wf(),
            final(self).ris == ris_after_clear(old(self).ris, v),
            *final(self) == (Pl061Regs { ris: final(self).ris, ..*old(self) }),
    {
        let ris = self.ris;
        proof {
            assert((ris & !(v & PIN_MASK)) & PIN_MASK == ris & !(v & PIN_MASK)) by (bit_vector)
                requires
                    ris & PIN_MASK == ris,
            ;
        }
        self.ris = ris & !(v & PIN_MASK);
    }

    /// Models the controller latching edge events on the given pins: the
    /// matching raw-status bits become pending. This is the hardware's
    /// move, not a bus write the driver can make.
    pub fn latch_events(&mut self, pins: u32)
        requires
            old(self).wf(),
        ensures
            final(self).wf(),
            final(self).ris == old(self).ris | (pins & PIN_MASK),
            *final(self) == (Pl061Regs { ris: final(self).ris, ..*old(self) }),
    {
        let ris = self.ris;
        proof {
            assert((ris | (pins & PIN_MASK)) & PIN_MASK == ris | (pins & PIN_MASK)) by (bit_vector)
                requires
                    ris & PIN_MASK == ris,
            ;
        }
        self.ris = ris | (pins & PIN_MASK);
    }
}

/// Law: for every pin `p` in 0..8, writing interrupt-enable with only bit
/// `p` set and reading it back yields exactly bit `p` set.
pub proof fn lemma_interrupt_enable_round_trip(p: u32)
    requires
        p < NUM_PINS,
    ensures
        ie_after_write(1u32 << p) == 1u32 << p,
{
    assert((1u32 << p) & 0xff == 1u32 << p) by (bit_vector)
        requires
            p < 8,
    ;
}

/// Law: once raw-status reports pin `p` pending, writing interrupt-clear
/// with bit `p` set leaves a raw status in which bit `p` reads clear.
pub proof fn lemma_interrupt_clear(ris: u32, p: u32)
    requires
        p < NUM_PINS,
    ensures
        ris_after_clear(ris, 1u32 << p) & (1u32 << p) == 0,
{
    assert((ris & !((1u32 << p) & 0xff)) & (1u32 << p) == 0) by (bit_vector)
        requires
            p < 8,
    ;
}

} // verus!
