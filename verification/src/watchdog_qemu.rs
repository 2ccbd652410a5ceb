//! Bit-exact model of the bus-attached watchdog: a PCI configuration space
//! with vendor and device id (0x00/0x02), command register (0x04, bit 1
//! enables memory-mapped access), base-address register (0x10) and lock
//! register (0x68); and a separate memory window with two preload
//! registers, an interrupt-status register and a write-only
//! unlock-then-load register. Runtime registers are guarded: a write to a
//! preload register takes effect only when the immediately preceding
//! sequence on the unlock-then-load register was a write of 0x80 followed
//! by a write of 0x86, and every guarded write locks the device again.

use vstd::prelude::*;
use crate::config::PCI_ECAM_BASE;
use crate::config::WDT_MEM_PADDR;
use crate::mem::phys_to_virt;
use crate::mem::spec_phys_to_virt;

verus! {

/// First word of the unlock sequence.
pub const UNLOCK_WORD_1: u32 = 0x80;

/// Second word of the unlock sequence.
pub const UNLOCK_WORD_2: u32 = 0x86;

/// Value written to the unlock-then-load register to restart the
/// countdown from the preload value.
pub const RELOAD_KICK: u32 = 0x0100;

/// Vendor identity the bus reports for this device.
pub const WDT_VENDOR_ID: u16 = 0x8086;

/// Device identity the bus reports for this device.
pub const WDT_DEVICE_ID: u16 = 0x25ab;

/// Base address programmed into the device's base-address register at
/// bring-up, as a raw 32-bit register value.
pub const WDT_BAR_VALUE: u32 = 0x1000_8000;

/// How far the unlock sequence on the unlock-then-load register has
/// progressed. Guarded registers accept a write only in the `Unlocked`
/// state, and any guarded write locks the device again.
#[derive(Clone, Copy, PartialEq, Eq, Structural, Debug)]
pub enum UnlockStage {
    /// No unlock sequence in progress.
    Locked,
    /// The first unlock word has been written.
    HalfUnlocked,
    /// The full unlock sequence has been written; the next guarded write
    /// takes effect.
    Unlocked,
}

/// The unlock stage after the unlock-then-load register is written with
/// `v` in stage `stage`: 0x80 always starts a sequence, 0x86 completes a
/// started one, and in the unlocked state the write itself is the guarded
/// write, which locks the device again.
pub open spec fn stage_after_load_write(stage: UnlockStage, v: u32) -> UnlockStage {
    match stage {
        UnlockStage::Locked => if v == UNLOCK_WORD_1 {
            UnlockStage::HalfUnlocked
        } else {
            UnlockStage::Locked
        },
        UnlockStage::HalfUnlocked => if v == UNLOCK_WORD_2 {
            UnlockStage::Unlocked
        } else if v == UNLOCK_WORD_1 {
            UnlockStage::HalfUnlocked
        } else {
            UnlockStage::Locked
        },
        UnlockStage::Unlocked => UnlockStage::Locked,
    }
}

/// Law: no single store to the unlock-then-load register unlocks a locked
/// device, whatever value it carries — so a preload write without the
/// prior two-word sequence has no effect.
pub proof fn lemma_no_single_write_unlocks(v: u32)
    ensures
        stage_after_load_write(UnlockStage::Locked, v) != UnlockStage::Unlocked,
{
}

/// Law: writing 0x80 then 0x86 unlocks the device from any state in which
/// no unlock is already pending, so the guarded write that follows takes
/// effect.
pub proof fn lemma_unlock_sequence(stage: UnlockStage)
    requires
        stage != UnlockStage::Unlocked,
    ensures
        stage_after_load_write(stage_after_load_write(stage, UNLOCK_WORD_1), UNLOCK_WORD_2)
            == UnlockStage::Unlocked,
{
}

/// The device's PCI configuration space, held as plain register values.
#[allow(non_camel_case_types)]
pub struct WatchDog_Config {
    /// Virtual base address of the configuration window.
    pub base: u64,
    /// Vendor id register, provided by the hardware.
    pub vid: u16,
    /// Device id register, provided by the hardware.
    pub did: u16,
    /// Command register: bit 1 enables memory-mapped access.
    pub com: u16,
    /// Base-address register of the memory window.
    pub bar: u32,
    /// Watchdog lock register: bit 1 enables the watchdog.
    pub wdt_lock: u8,
}

impl WatchDog_Config {
    /// Memory-mapped access to the device is enabled.
    pub open spec fn mem_enabled(self) -> bool {
        self.com & 2 == 2
    }

    /// Overlays the configuration window at `base`, which must be the
    /// non-null virtual mapping of the device's configuration page. The
    /// identity registers hold what the bus reports; everything else
    /// starts from the reset state.
    pub fn new(base: u64) -> (r: WatchDog_Config)
        requires
            base != 0,
        ensures
            r.base == base,
            r.vid == WDT_VENDOR_ID,
            r.did == WDT_DEVICE_ID,
            r.com == 0,
            r.bar == 0,
            r.wdt_lock == 0,
    {
        WatchDog_Config {
            base,
            vid: WDT_VENDOR_ID,
            did: WDT_DEVICE_ID,
            com: 0,
            bar: 0,
            wdt_lock: 0,
        }
    }

    /// Reads the device identity: the vendor id in the high half-word,
    /// the device id in the low one. The read-back is advisory; an
    /// unexpected identity is reported, never acted on.
    pub fn id(&self) -> (r: u32)
        ensures
            r == ((self.vid as u32) << 16) | (self.did as u32),
    {
        let vendor_id = self.vid as u32;
        let device_id = self.did as u32;
        (vendor_id << 16) | device_id
    }

    /// Programs the configured memory-window base into the base-address
    /// register.
    pub fn set_bar(&mut self)
        ensures
            *final(self) == (WatchDog_Config { bar: WDT_BAR_VALUE, ..*old(self) }),
    {
        self.bar = WDT_BAR_VALUE;
    }

    /// Enables memory-mapped access: read-modify-write of the command
    /// register setting bit 1.
    pub fn enable_mem(&mut self)
        ensures
            *final(self) == (WatchDog_Config { com: old(self).com | 2, ..*old(self) }),
            final(self).mem_enabled(),
    {
        let com = self.com;
        proof {
            assert((com | 2) & 2 == 2) by (bit_vector);
        }
        self.com = com | 0x0002;
    }

    /// Enables the watchdog: read-modify-write of the lock register
    /// setting bit 1.
    pub fn set_wdt_lock(&mut self)
        ensures
            *final(self) == (WatchDog_Config { wdt_lock: old(self).wdt_lock | 2, ..*old(self) }),
    {
        let wdt_lock = self.wdt_lock;
        self.wdt_lock = wdt_lock | 0x02;
    }
}

/// The device's memory window, held as plain register values: the two
/// preload registers, the interrupt-status register, and the write-only
/// unlock-then-load register whose sequence state guards them.
pub struct WatchDog {
    /// Virtual base address of the memory window.
    pub base: u64,
    /// First preload register: the countdown start value.
    pub preload_1: u32,
    /// Second preload register.
    pub preload_2: u32,
    /// Interrupt status register.
    pub int_status: u32,
    /// Progress of the unlock sequence on the unlock-then-load register.
    pub stage: UnlockStage,
    /// How many times the countdown was restarted through the
    /// unlock-then-load register.
    pub reloads: u32,
}

impl WatchDog {
    /// Overlays the memory window at `base`, which must be the non-null
    /// virtual mapping of the device's memory page. The device starts
    /// locked.
    pub fn new(base: u64) -> (r: WatchDog)
        requires
            base != 0,
        ensures
            r.base == base,
            r.preload_1 == 0,
            r.preload_2 == 0,
            r.int_status == 0,
            r.stage == UnlockStage::Locked,
            r.reloads == 0,
    {
        WatchDog {
            base,
            preload_1: 0,
            preload_2: 0,
            int_status: 0,
            stage: UnlockStage::Locked,
            reloads: 0,
        }
    }

    /// Reads the first preload register back.
    pub fn read_preload_value_1(&self) -> (r: u32)
        ensures
            r == self.preload_1,
    {
        self.preload_1
    }

    /// Reads the second preload register back.
    pub fn read_preload_value_2(&self) -> (r: u32)
        ensures
            r == self.preload_2,
    {
        self.preload_2
    }

    /// Reads the interrupt status register.
    pub fn read_wdt_int_status(&self) -> (r: u32)
        ensures
            r == self.int_status,
    {
        self.int_status
    }

    /// One store to the write-only unlock-then-load register. The store
    /// advances the unlock sequence; in the unlocked state it is itself
    /// the guarded write, restarting the countdown when it carries the
    /// reload kick and locking the device again either way.
    pub fn write_wdt_load(&mut self, v: u32)
        requires
            old(self).reloads < u32::MAX,
        ensures
            final(self).stage == stage_after_load_write(old(self).stage, v),
            final(self).reloads == if old(self).stage == UnlockStage::Unlocked && v == RELOAD_KICK {
                old(self).reloads + 1
            } else {
                old(self).reloads as int
            },
            *final(self) == (WatchDog {
                stage: final(self).stage,
                reloads: final(self).reloads,
                ..*old(self)
            }),
    {
        match self.stage {
            UnlockStage::Locked => {
                if v == UNLOCK_WORD_1 {
                    self.stage = UnlockStage::HalfUnlocked;
                }
            },
            UnlockStage::HalfUnlocked => {
                if v == UNLOCK_WORD_2 {
                    self.stage = UnlockStage::Unlocked;
                } else if v != UNLOCK_WORD_1 {
                    self.stage = UnlockStage::Locked;
                }
            },
            UnlockStage::Unlocked => {
                if v == RELOAD_KICK {
                    self.reloads = self.reloads + 1;
                }
                self.stage = UnlockStage::Locked;
            },
        }
    }

    /// One store to the first preload register. The store takes effect
    /// only if the unlock sequence immediately precedes it; it locks the
    /// device again either way.
    pub fn write_preload_1_reg(&mut self, value: u32)
        ensures
            final(self).stage == UnlockStage::Locked,
            old(self).stage == UnlockStage::Unlocked ==> final(self).preload_1 == value,
            old(self).stage != UnlockStage::Unlocked ==> final(self).preload_1 == old(
                self,
            ).preload_1,
            *final(self) == (WatchDog {
                stage: final(self).stage,
                preload_1: final(self).preload_1,
                ..*old(self)
            }),
    {
        if matches!(self.stage, UnlockStage::Unlocked) {
            self.preload_1 = value;
        }
        self.stage = UnlockStage::Locked;
    }

    /// One store to the second preload register, guarded like the first.
    pub fn write_preload_2_reg(&mut self, value: u32)
        ensures
            final(self).stage == UnlockStage::Locked,
            old(self).stage == UnlockStage::Unlocked ==> final(self).preload_2 == value,
            old(self).stage != UnlockStage::Unlocked ==> final(self).preload_2 == old(
                self,
            ).preload_2,
            *final(self) == (WatchDog {
                stage: final(self).stage,
                preload_2: final(self).preload_2,
                ..*old(self)
            }),
    {
        if matches!(self.stage, UnlockStage::Unlocked) {
            self.preload_2 = value;
        }
        self.stage = UnlockStage::Locked;
    }

    /// Writes the unlock sequence: 0x80 then 0x86 on the unlock-then-load
    /// register, after which exactly one guarded write takes effect.
    pub fn unlock_wdt(&mut self)
        requires
            old(self).reloads < u32::MAX,
            old(self).stage != UnlockStage::Unlocked,
        ensures
            final(self).stage == UnlockStage::Unlocked,
            *final(self) == (WatchDog { stage: final(self).stage, ..*old(self) }),
    {
        self.write_wdt_load(UNLOCK_WORD_1);
        self.write_wdt_load(UNLOCK_WORD_2);
    }

    /// Unlocks, then writes the first preload register, so the write is
    /// owed to take effect.
    pub fn set_preload_value_1(&mut self, value: u32)
        requires
            old(self).reloads < u32::MAX,
            old(self).stage != UnlockStage::Unlocked,
        ensures
            final(self).preload_1 == value,
            final(self).stage == UnlockStage::Locked,
            *final(self) == (WatchDog {
                stage: final(self).stage,
                preload_1: value,
                ..*old(self)
            }),
    {
        self.unlock_wdt();
        self.write_preload_1_reg(value);
    }

    /// Unlocks, then writes the second preload register, so the write is
    /// owed to take effect.
    pub fn set_preload_value_2(&mut self, value: u32)
        requires
            old(self).reloads < u32::MAX,
            old(self).stage != UnlockStage::Unlocked,
        ensures
            final(self).preload_2 == value,
            final(self).stage == UnlockStage::Locked,
            *final(self) == (WatchDog {
                stage: final(self).stage,
                preload_2: value,
                ..*old(self)
            }),
    {
        self.unlock_wdt();
        self.write_preload_2_reg(value);
    }

    /// Unlocks, then writes the reload kick, restarting the countdown
    /// from the preload value exactly once.
    pub fn reset(&mut self)
        requires
            old(self).reloads < u32::MAX,
            old(self).stage != UnlockStage::Unlocked,
        ensures
            final(self).reloads == old(self).reloads + 1,
            final(self).stage == UnlockStage::Locked,
            *final(self) == (WatchDog {
                stage: final(self).stage,
                reloads: final(self).reloads,
                ..*old(self)
            }),
    {
        self.unlock_wdt();
        self.write_wdt_load(RELOAD_KICK);
    }
}

/// Brings the bus-attached watchdog up: reads the identity, programs the
/// base-address register, enables memory-mapped access, enables the
/// watchdog, and restarts the countdown once. Returns the configured
/// configuration-space and memory-window handles.
pub fn watchdog_init() -> (r: (WatchDog_Config, WatchDog))
    ensures
        r.0.base == spec_phys_to_virt((PCI_ECAM_BASE + (2u64 << 15)) as u64),
        r.0.bar == WDT_BAR_VALUE,
        r.0.mem_enabled(),
        r.0.wdt_lock & 2 == 2,
        r.1.base == spec_phys_to_virt(WDT_MEM_PADDR),
        r.1.reloads == 1,
        r.1.stage == UnlockStage::Locked,
{
    proof {
        assert((2u64 << 15) == 0x10000) by (bit_vector);
        assert((0u8 | 2) & 2 == 2) by (bit_vector);
    }
    let pci_config_base: u64 = PCI_ECAM_BASE + (2u64 << 15);
    let mut config = WatchDog_Config::new(phys_to_virt(pci_config_base));
    let mut wdt = WatchDog::new(phys_to_virt(WDT_MEM_PADDR));
    let _id = config.id();
    config.set_bar();
    config.enable_mem();
    config.set_wdt_lock();
    wdt.reset();
    let _p1 = wdt.read_preload_value_1();
    let _p2 = wdt.read_preload_value_2();
    let _status = wdt.read_wdt_int_status();
    (config, wdt)
}

} // verus!
