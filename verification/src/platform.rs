//! Platform state and bring-up: the interrupt table, the GPIO power-off
//! device, the watchdog, and the dispatch path that a decoded hardware
//! interrupt enters.
//!
//! Bring-up runs on the primary core in a fixed order — interrupt
//! controller, timer, console, power-control device — because the later
//! steps register handlers and assume the controller is already live. The
//! table is only mutated during that single-threaded phase.

use vstd::prelude::*;
use crate::boot::PerCoreInit;
use crate::config::GPIO_IRQ;
use crate::config::PL061_PADDR;
use crate::config::WATCHDOG_IRQ_NUM;
use crate::config::WDT_PADDR;
use crate::gic::ConfigError;
use crate::gic::InterruptTable;
use crate::gic::InterruptType;
use crate::gic::IrqHandler;
use crate::gic::MAX_IRQ;
use crate::gic::SPI_BASE;
use crate::gic::translate_irq;
use crate::mem::phys_to_virt;
use crate::mem::spec_phys_to_virt;
use crate::pl061::Pl061Regs;
use crate::pl061::lemma_interrupt_enable_round_trip;
use crate::pl061::ris_after_clear;
use crate::watchdog_phytium::WatchDog;
use crate::watchdog_phytium::WatchDogReport;
use crate::watchdog_phytium::handle_wdt_irq;

verus! {

/// The GPIO pin whose edge interrupt triggers the platform power-off.
pub const POWER_OFF_PIN: u32 = 3;

/// The controller interrupt id of the GPIO device: its shared-peripheral
/// line translated into the shared-peripheral id window.
pub open spec fn gpio_irq_num() -> usize {
    (GPIO_IRQ + SPI_BASE) as usize
}

/// The shared platform state one core owns during bring-up and the
/// dispatch path reads afterwards.
pub struct Platform {
    /// The interrupt controller's distributor is live.
    pub gic_initialized: bool,
    /// The per-core timer is programmed.
    pub timer_initialized: bool,
    /// The console device is initialized.
    pub console_initialized: bool,
    /// Handler bindings and per-id mask state.
    pub intr: InterruptTable,
    /// The GPIO power-control device.
    pub gpio: Pl061Regs,
    /// The watchdog device.
    pub wdt: WatchDog,
    /// How many times the platform power-off sequence was reached.
    pub power_off_count: u32,
}

/// What the dispatch path did with a decoded interrupt id.
#[derive(Clone, Copy, PartialEq, Eq, Structural, Debug)]
pub enum DispatchOutcome {
    /// A bound, unmasked id: its handler ran.
    Handled(IrqHandler),
    /// No handler bound: logged and dropped, never a fault.
    DroppedUnbound,
    /// Bound but masked: logged and dropped, never a fault.
    DroppedDisabled,
}

impl Platform {
    /// The table spans the id space and the GPIO registers hold only
    /// wired bits.
    pub open spec fn wf(self) -> bool {
        &&& self.intr.wf()
        &&& self.gpio.wf()
    }

    /// The platform at reset: nothing initialized, every interrupt id
    /// unbound and masked, both devices mapped at their configured
    /// addresses in their reset state.
    pub fn new() -> (r: Platform)
        ensures
            r.wf(),
            !r.gic_initialized,
            !r.timer_initialized,
            !r.console_initialized,
            forall|i: int| 0 <= i < MAX_IRQ ==> r.intr.bindings()[i] is None,
            forall|i: int| 0 <= i < MAX_IRQ ==> !r.intr.enabled_flags()[i],
            r.gpio.base == spec_phys_to_virt(PL061_PADDR),
            r.gpio.ie == 0,
            r.gpio.ris == 0,
            r.wdt.base == spec_phys_to_virt(WDT_PADDR),
            !r.wdt.is_running(),
            r.power_off_count == 0,
    {
        Platform {
            gic_initialized: false,
            timer_initialized: false,
            console_initialized: false,
            intr: InterruptTable::new(),
            gpio: Pl061Regs::new(phys_to_virt(PL061_PADDR)),
            wdt: WatchDog::new(phys_to_virt(WDT_PADDR)),
            power_off_count: 0,
        }
    }
}

/// The platform power-off primitive: the one place the
/// architecture-specific privileged halt sequence is reached. The model
/// records that it was reached; the halt itself is the unverified
/// binding's part.
pub fn terminate(plat: &mut Platform)
    requires
        old(plat).power_off_count < u32::MAX,
    ensures
        *final(plat) == (Platform {
            power_off_count: (old(plat).power_off_count + 1) as u32,
            ..*old(plat)
        }),
{
    plat.power_off_count = plat.power_off_count + 1;
}

/// The GPIO power-off handler. In order: read the raw interrupt status,
/// write the interrupt-clear register with exactly the enabled pin bits,
/// and only then run the platform power-off sequence. Skipping the clear
/// before returning would re-trigger the interrupt forever.
pub fn handle_gpio_irq(plat: &mut Platform)
    requires
        old(plat).wf(),
        old(plat).power_off_count < u32::MAX,
    ensures
        final(plat).wf(),
        *final(plat) == (Platform {
            gpio: (Pl061Regs {
                ris: ris_after_clear(old(plat).gpio.ris, old(plat).gpio.ie),
                ..old(plat).gpio
            }),
            power_off_count: (old(plat).power_off_count + 1) as u32,
            ..*old(plat)
        }),
{
    let _status = plat.gpio.read_ris();
    let enabled_pins = plat.gpio.read_ie();
    plat.gpio.write_ic(enabled_pins);
    let _status_after = plat.gpio.read_ris();
    terminate(plat);
}

/// The GPIO power-off handler under the name the common platform code
/// binds it by.
pub fn handle(plat: &mut Platform)
    requires
        old(plat).wf(),
        old(plat).power_off_count < u32::MAX,
    ensures
        final(plat).wf(),
        *final(plat) == (Platform {
            gpio: (Pl061Regs {
                ris: ris_after_clear(old(plat).gpio.ris, old(plat).gpio.ie),
                ..old(plat).gpio
            }),
            power_off_count: (old(plat).power_off_count + 1) as u32,
            ..*old(plat)
        }),
{
    handle_gpio_irq(plat);
}

/// Looks up the handler bound to a decoded interrupt id and runs it. An
/// unbound or masked id is logged and dropped — a spurious hardware event
/// must never crash the system — so the platform state is untouched and
/// no handler runs.
pub fn dispatch(plat: &mut Platform, irq: usize) -> (r: DispatchOutcome)
    requires
        old(plat).wf(),
        irq < MAX_IRQ,
        old(plat).power_off_count < u32::MAX,
    ensures
        final(plat).wf(),
        !old(plat).intr.is_bound(irq) ==> r == DispatchOutcome::DroppedUnbound && *final(plat)
            == *old(plat),
        old(plat).intr.is_bound(irq) && !old(plat).intr.is_unmasked(irq) ==> r
            == DispatchOutcome::DroppedDisabled && *final(plat) == *old(plat),
        old(plat).intr.is_unmasked(irq) && old(plat).intr.bindings()[irq as int] == Some(
            IrqHandler::GpioPowerOff,
        ) ==> r == DispatchOutcome::Handled(IrqHandler::GpioPowerOff) && *final(plat) == (Platform {
            gpio: (Pl061Regs {
                ris: ris_after_clear(old(plat).gpio.ris, old(plat).gpio.ie),
                ..old(plat).gpio
            }),
            power_off_count: (old(plat).power_off_count + 1) as u32,
            ..*old(plat)
        }),
        old(plat).intr.is_unmasked(irq) && old(plat).intr.bindings()[irq as int] == Some(
            IrqHandler::WatchdogFeed,
        ) ==> r == DispatchOutcome::Handled(IrqHandler::WatchdogFeed) && *final(plat) == (Platform {
            wdt: (WatchDog { wrr: 1, ..old(plat).wdt }),
            ..*old(plat)
        }),
{
    match plat.intr.handler_for(irq) {
        None => DispatchOutcome::DroppedUnbound,
        Some(handler) => {
            if !plat.intr.is_enabled(irq) {
                DispatchOutcome::DroppedDisabled
            } else {
                match handler {
                    IrqHandler::GpioPowerOff => {
                        handle_gpio_irq(plat);
                        DispatchOutcome::Handled(IrqHandler::GpioPowerOff)
                    },
                    IrqHandler::WatchdogFeed => {
                        handle_wdt_irq(&mut plat.wdt);
                        DispatchOutcome::Handled(IrqHandler::WatchdogFeed)
                    },
                }
            }
        },
    }
}

/// Configures the GPIO device as the power-off trigger: unmasks its
/// interrupt id, binds the power-off handler, and enables the configured
/// pin's interrupt at the controller. An id already bound to a handler is
/// a configuration error: nothing is replaced and the device is left
/// untouched.
pub fn power_gpio_init(plat: &mut Platform) -> (r: Result<(), ConfigError>)
    requires
        old(plat).wf(),
    ensures
        final(plat).wf(),
        r is Ok <==> !old(plat).intr.is_bound(gpio_irq_num()),
        final(plat).intr.enabled_flags() == old(plat).intr.enabled_flags().update(
            gpio_irq_num() as int,
            true,
        ),
        r is Ok ==> final(plat).intr.bindings() == old(plat).intr.bindings().update(
            gpio_irq_num() as int,
            Some(IrqHandler::GpioPowerOff),
        ),
        r is Err ==> final(plat).intr.bindings() == old(plat).intr.bindings(),
        r is Err ==> r == Result::<(), ConfigError>::Err(ConfigError::HandlerAlreadyBound),
        r is Ok ==> final(plat).gpio == (Pl061Regs {
            ie: 1u32 << POWER_OFF_PIN,
            ..old(plat).gpio
        }),
        r is Err ==> final(plat).gpio == old(plat).gpio,
        *final(plat) == (Platform {
            intr: final(plat).intr,
            gpio: final(plat).gpio,
            ..*old(plat)
        }),
{
    let gpio_irq = match translate_irq(GPIO_IRQ, InterruptType::Spi) {
        Some(n) => n,
        None => {
            proof {
                assert(false);
            }
            0
        },
    };
    plat.intr.set_enable(gpio_irq, true);
    if !plat.intr.register_handler(gpio_irq, IrqHandler::GpioPowerOff) {
        return Err(ConfigError::HandlerAlreadyBound);
    }
    let _pending = plat.gpio.read_ris();
    let _enabled_before = plat.gpio.read_ie();
    plat.gpio.write_ie(1u32 << POWER_OFF_PIN);
    let _enabled_after = plat.gpio.read_ie();
    proof {
        lemma_interrupt_enable_round_trip(POWER_OFF_PIN);
    }
    Ok(())
}

/// Configures the GPIO device as the power-off trigger at its platform
/// interrupt id; the common entry point drivers call at bring-up.
pub fn init_gpio(plat: &mut Platform) -> (r: Result<(), ConfigError>)
    requires
        old(plat).wf(),
    ensures
        final(plat).wf(),
        r is Ok <==> !old(plat).intr.is_bound(gpio_irq_num()),
        final(plat).intr.enabled_flags() == old(plat).intr.enabled_flags().update(
            gpio_irq_num() as int,
            true,
        ),
        r is Ok ==> final(plat).intr.bindings() == old(plat).intr.bindings().update(
            gpio_irq_num() as int,
            Some(IrqHandler::GpioPowerOff),
        ),
        r is Err ==> final(plat).intr.bindings() == old(plat).intr.bindings(),
        r is Ok ==> final(plat).gpio == (Pl061Regs {
            ie: 1u32 << POWER_OFF_PIN,
            ..old(plat).gpio
        }),
        r is Err ==> final(plat).gpio == old(plat).gpio,
        *final(plat) == (Platform {
            intr: final(plat).intr,
            gpio: final(plat).gpio,
            ..*old(plat)
        }),
{
    power_gpio_init(plat)
}

/// Primary-core platform bring-up, in its fixed, non-configurable order:
/// interrupt controller, timer, console, then the power-control device —
/// the later steps register handlers and assume the controller is live.
pub fn platform_init(plat: &mut Platform) -> (r: Result<(), ConfigError>)
    requires
        old(plat).wf(),
    ensures
        final(plat).wf(),
        final(plat).gic_initialized,
        final(plat).timer_initialized,
        final(plat).console_initialized,
        r is Ok <==> !old(plat).intr.is_bound(gpio_irq_num()),
        final(plat).intr.enabled_flags() == old(plat).intr.enabled_flags().update(
            gpio_irq_num() as int,
            true,
        ),
        r is Ok ==> final(plat).intr.bindings() == old(plat).intr.bindings().update(
            gpio_irq_num() as int,
            Some(IrqHandler::GpioPowerOff),
        ),
        r is Err ==> final(plat).intr.bindings() == old(plat).intr.bindings(),
        r is Ok ==> final(plat).gpio == (Pl061Regs {
            ie: 1u32 << POWER_OFF_PIN,
            ..old(plat).gpio
        }),
        r is Err ==> final(plat).gpio == old(plat).gpio,
        final(plat).wdt == old(plat).wdt,
        final(plat).power_off_count == old(plat).power_off_count,
{
    plat.gic_initialized = true;
    plat.timer_initialized = true;
    plat.console_initialized = true;
    power_gpio_init(plat)
}

/// Secondary-core platform bring-up: the core's own interrupt-controller
/// interface and timer only. Must not run before the primary core has
/// enabled the interrupt controller — the external core-release barrier
/// enforces the precondition.
pub fn platform_init_secondary(plat: &Platform) -> (r: PerCoreInit)
    requires
        plat.gic_initialized,
    ensures
        r.gic_cpu_ready,
        r.timer_ready,
{
    PerCoreInit { gic_cpu_ready: true, timer_ready: true }
}

/// Brings the watchdog up: unmasks its interrupt id, binds the keep-alive
/// handler, starts the countdown, reads the identity and timeout values
/// back, and refreshes the countdown. An id already bound is a
/// configuration error: nothing is replaced and the device stays stopped.
#[allow(non_snake_case)]
pub fn Watchdog_init(plat: &mut Platform) -> (r: Result<WatchDogReport, ConfigError>)
    requires
        old(plat).wf(),
    ensures
        final(plat).wf(),
        r is Ok <==> !old(plat).intr.is_bound(WATCHDOG_IRQ_NUM),
        final(plat).intr.enabled_flags() == old(plat).intr.enabled_flags().update(
            WATCHDOG_IRQ_NUM as int,
            true,
        ),
        r is Ok ==> final(plat).intr.bindings() == old(plat).intr.bindings().update(
            WATCHDOG_IRQ_NUM as int,
            Some(IrqHandler::WatchdogFeed),
        ),
        r is Err ==> final(plat).intr.bindings() == old(plat).intr.bindings(),
        r is Err ==> r == Result::<WatchDogReport, ConfigError>::Err(
            ConfigError::HandlerAlreadyBound,
        ),
        r is Err ==> final(plat).wdt == old(plat).wdt,
        r is Ok ==> final(plat).wdt == (WatchDog { wcs: 1, wrr: 1, ..old(plat).wdt }),
        r is Ok ==> final(plat).wdt.is_running(),
        r matches Ok(report) ==> report.enabled && !report.ws0 && !report.ws1,
        *final(plat) == (Platform {
            intr: final(plat).intr,
            wdt: final(plat).wdt,
            ..*old(plat)
        }),
{
    plat.intr.set_enable(WATCHDOG_IRQ_NUM, true);
    if !plat.intr.register_handler(WATCHDOG_IRQ_NUM, IrqHandler::WatchdogFeed) {
        return Err(ConfigError::HandlerAlreadyBound);
    }
    let report = plat.wdt.init();
    let _wor = plat.wdt.get_wor();
    let _wcv = plat.wdt.get_wcv();
    let ghost plat_started = *plat;
    let mut i: usize = 0;
    while i < 10
        invariant
            i <= 10,
            i == 0 ==> *plat == plat_started,
            i > 0 ==> *plat == (Platform {
                wdt: (WatchDog { wrr: 1, ..plat_started.wdt }),
                ..plat_started
            }),
        decreases 10 - i,
    {
        plat.wdt.feed();
        i += 1;
    }
    Ok(report)
}

} // verus!
