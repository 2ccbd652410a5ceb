//! Bit-exact model of the direct-mapped watchdog's register window:
//! `wrr` (0x0000, update/refresh), `w_iidr` (0x0FCC, interface identity),
//! `wcs` (0x1000, control and status: bit 0 enable, bit 1 ws0, bit 2 ws1),
//! `wor` (0x1008, 32-bit reload offset), `wcvl` (0x1010) and `wcvh`
//! (0x1014), the two halves of the 64-bit compare value. The hardware
//! counts down on its own; software only writes the comparator and
//! refreshes. The high comparator word must be written before the low
//! word.

use vstd::prelude::*;

verus! {

/// A 64-bit value assembled from its two 32-bit register halves.
pub open spec fn join64(high: u32, low: u32) -> u64 {
    ((high as u64) << 32) | (low as u64)
}

/// Fields of the watchdog's interface-identity register, and the state
/// bits of its control register, decoded at bring-up.
#[derive(Clone, Copy, PartialEq, Eq, Structural, Debug)]
pub struct WatchDogReport {
    /// Bits 16-23 of the identity register.
    pub version: u8,
    /// Bits 8-15 of the identity register.
    pub continuation_code: u8,
    /// Bits 0-7 of the identity register.
    pub identity_code: u8,
    /// Control register bit 0: the watchdog is running.
    pub enabled: bool,
    /// Control register bit 1: first timeout signalled.
    pub ws0: bool,
    /// Control register bit 2: second timeout signalled.
    pub ws1: bool,
}

/// The watchdog's register window, held as plain register values.
pub struct WatchDog {
    /// Virtual base address of the register page.
    pub base: u64,
    /// Update register: writing it refreshes the countdown.
    pub wrr: u32,
    /// Interface identity register, provided by the hardware.
    pub w_iidr: u32,
    /// Control and status register: bit 0 enable, bit 1 ws0, bit 2 ws1.
    pub wcs: u32,
    /// Reload offset register.
    pub wor: u32,
    /// Low half of the 64-bit compare value.
    pub wcvl: u32,
    /// High half of the 64-bit compare value.
    pub wcvh: u32,
}

impl WatchDog {
    /// The full 64-bit compare value the two halves hold.
    pub open spec fn wcv(self) -> u64 {
        join64(self.wcvh, self.wcvl)
    }

    /// The watchdog is counting.
    pub open spec fn is_running(self) -> bool {
        self.wcs & 1 == 1
    }

    /// Overlays the register window at `base`, which must be the non-null
    /// virtual mapping of the device's register page. The model starts
    /// from the stopped reset state.
    pub fn new(base: u64) -> (r: WatchDog)
        requires
            base != 0,
        ensures
            r.base == base,
            !r.is_running(),
            r.wcs == 0,
            r.wor == 0,
            r.wcv() == 0,
            r.w_iidr == 0,
    {
        proof {
            assert(join64(0, 0) == 0) by (bit_vector);
            assert(0u32 & 1 == 0) by (bit_vector);
        }
        WatchDog { base, wrr: 0, w_iidr: 0, wcs: 0, wor: 0, wcvl: 0, wcvh: 0 }
    }

    /// Models the hardware-provided identity register; software never
    /// writes it.
    pub fn set_identity(&mut self, id: u32)
        ensures
            *final(self) == (WatchDog { w_iidr: id, ..*old(self) }),
    {
        self.w_iidr = id;
    }

    /// Starts the countdown: one store setting the enable bit.
    pub fn start(&mut self)
        ensures
            *final(self) == (WatchDog { wcs: 1, ..*old(self) }),
            final(self).is_running(),
    {
        proof {
            assert(1u32 & 1 == 1) by (bit_vector);
        }
        self.wcs = 0x1;
    }

    /// Stops the countdown: one store clearing the control register.
    pub fn stop(&mut self)
        ensures
            *final(self) == (WatchDog { wcs: 0, ..*old(self) }),
            !final(self).is_running(),
    {
        proof {
            assert(0u32 & 1 == 0) by (bit_vector);
        }
        self.wcs = 0x0;
    }

    /// Starts the watchdog, then decodes the identity register and the
    /// control-status read-back. An identity read-back is advisory: the
    /// decoded fields are reported, never acted on.
    pub fn init(&mut self) -> (r: WatchDogReport)
        ensures
            *final(self) == (WatchDog { wcs: 1, ..*old(self) }),
            final(self).is_running(),
            r.version == (old(self).w_iidr >> 16) as u8,
            r.continuation_code == ((old(self).w_iidr >> 8) & 0xff) as u8,
            r.identity_code == (old(self).w_iidr & 0xff) as u8,
            r.enabled,
            !r.ws0,
            !r.ws1,
    {
        self.start();
        let id = self.w_iidr;
        let status = self.wcs;
        proof {
            assert(1u32 & 1 != 0 && (1u32 >> 1) & 1 == 0 && (1u32 >> 2) & 1 == 0) by (bit_vector);
        }
        WatchDogReport {
            version: (id >> 16) as u8,
            continuation_code: ((id >> 8) & 0xff) as u8,
            identity_code: (id & 0xff) as u8,
            enabled: status & 1 != 0,
            ws0: (status >> 1) & 1 != 0,
            ws1: (status >> 2) & 1 != 0,
        }
    }

    /// Sets the 32-bit reload offset: one store to the reload register.
    pub fn set_wor(&mut self, timeout: u32)
        ensures
            *final(self) == (WatchDog { wor: timeout, ..*old(self) }),
    {
        self.wor = timeout;
    }

    /// Reads the 32-bit reload offset back.
    pub fn get_wor(&self) -> (r: u32)
        ensures
            r == self.wor,
    {
        self.wor
    }

    /// Writes the 64-bit compare value as two 32-bit stores, high word
    /// first as the hardware requires. The two stores are one critical
    /// sequence: the caller must not let another context read or write
    /// the comparator between them.
    pub fn set_wcv(&mut self, wcv: u64)
        ensures
            *final(self) == (WatchDog {
                wcvh: (wcv >> 32) as u32,
                wcvl: wcv as u32,
                ..*old(self)
            }),
            final(self).wcv() == wcv,
    {
        proof {
            lemma_comparator_round_trip(wcv);
        }
        self.wcvh = (wcv >> 32) as u32;
        self.wcvl = wcv as u32;
    }

    /// Reads the 64-bit compare value as two 32-bit loads.
    pub fn get_wcv(&self) -> (r: u64)
        ensures
            r == self.wcv(),
    {
        let wcvh = self.wcvh as u64;
        let wcvl = self.wcvl as u64;
        (wcvh << 32) | wcvl
    }

    /// Feeds the watchdog: one store to the update register restarts the
    /// countdown in hardware.
    pub fn feed(&mut self)
        ensures
            *final(self) == (WatchDog { wrr: 1, ..*old(self) }),
    {
        self.wrr = 0x1;
    }
}

/// Law: splitting a 64-bit compare value into its register halves and
/// assembling them again yields the value back, so a comparator read-back
/// after `set_wcv` returns exactly what was set.
pub proof fn lemma_comparator_round_trip(v: u64)
    ensures
        join64((v >> 32) as u32, v as u32) == v,
{
    assert((((v >> 32) as u32 as u64) << 32) | (v as u32 as u64) == v) by (bit_vector);
}

/// The watchdog keep-alive handler: on a timeout interrupt, feed the
/// watchdog so the countdown restarts.
pub fn handle_wdt_irq(wdt: &mut WatchDog)
    ensures
        *final(wdt) == (WatchDog { wrr: 1, ..*old(wdt) }),
{
    wdt.feed();
}

} // verus!
