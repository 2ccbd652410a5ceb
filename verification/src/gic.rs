//! Interrupt controller interface: translation of per-type interrupt lines
//! to controller interrupt ids, per-interrupt enable state, and a
//! fixed-capacity table binding at most one handler to each interrupt id.
//!
//! The table is filled during single-threaded primary-core bring-up and is
//! read-mostly afterwards; a second registration on an already-bound id is
//! a configuration error and is rejected, never silently replaced.

use vstd::prelude::*;

verus! {

/// Maximum number of interrupt ids the controller decodes.
pub const MAX_IRQ: usize = 1024;

/// Software-generated interrupt ids occupy 0..16.
pub const SGI_COUNT: usize = 16;

/// Private-peripheral interrupt ids occupy 16..32.
pub const PPI_BASE: usize = 16;

/// Shared-peripheral interrupt ids occupy 32..1020.
pub const SPI_BASE: usize = 32;

/// Number of private-peripheral interrupt lines.
pub const PPI_COUNT: usize = 16;

/// Number of shared-peripheral interrupt lines.
pub const SPI_COUNT: usize = 988;

/// The class of an interrupt line, which fixes the range of controller
/// interrupt ids it may map to.
#[derive(Clone, Copy, PartialEq, Eq, Structural, Debug)]
pub enum InterruptType {
    /// Software-generated interrupt, used between processors.
    Sgi,
    /// Private peripheral interrupt, specific to a single processor.
    Ppi,
    /// Shared peripheral interrupt, routable to any processor.
    Spi,
}

/// The controller interrupt id of line `id` of class `int_type`: each class
/// occupies a fixed window of the id space, and a line outside its class's
/// window maps to nothing.
pub open spec fn spec_translate_irq(id: usize, int_type: InterruptType) -> Option<usize> {
    match int_type {
        InterruptType::Sgi => if id < SGI_COUNT {
            Some(id)
        } else {
            None
        },
        InterruptType::Ppi => if id < PPI_COUNT {
            Some((id + PPI_BASE) as usize)
        } else {
            None
        },
        InterruptType::Spi => if id < SPI_COUNT {
            Some((id + SPI_BASE) as usize)
        } else {
            None
        },
    }
}

/// Translates an interrupt line of a given class to a controller
/// interrupt id.
pub fn translate_irq(id: usize, int_type: InterruptType) -> (r: Option<usize>)
    ensures
        r == spec_translate_irq(id, int_type),
        r is Some ==> r.unwrap() < MAX_IRQ,
{
    match int_type {
        InterruptType::Sgi => if id < SGI_COUNT {
            Some(id)
        } else {
            None
        },
        InterruptType::Ppi => if id < PPI_COUNT {
            Some(id + PPI_BASE)
        } else {
            None
        },
        InterruptType::Spi => if id < SPI_COUNT {
            Some(id + SPI_BASE)
        } else {
            None
        },
    }
}

/// A configuration error detected at bring-up. Continuing with a
/// misconfigured device is unsafe, so the caller treats this as fatal.
#[derive(Clone, Copy, PartialEq, Eq, Structural, Debug)]
pub enum ConfigError {
    /// A handler registration hit an interrupt id that is already bound.
    HandlerAlreadyBound,
}

/// A handler capability that can be bound to an interrupt id. "Unbound" is
/// a first-class state of the table, not a null value.
#[derive(Clone, Copy, PartialEq, Eq, Structural, Debug)]
pub enum IrqHandler {
    /// The GPIO power-off handler: clear the pending pin interrupts, then
    /// run the platform power-off sequence.
    GpioPowerOff,
    /// The watchdog keep-alive handler: feed the watchdog.
    WatchdogFeed,
}

/// What a table's bindings become when `handler` is registered at `irq`:
/// an unbound id takes the binding; a bound id keeps what it has.
pub open spec fn bindings_after_register(
    bindings: Seq<Option<IrqHandler>>,
    irq: int,
    handler: IrqHandler,
) -> Seq<Option<IrqHandler>> {
    if bindings[irq] is None {
        bindings.update(irq, Some(handler))
    } else {
        bindings
    }
}

/// Law: registering a handler binds it, and a second registration on the
/// same id — whatever handler it carries — is rejected without replacing
/// the first binding.
pub proof fn lemma_register_handler_uniqueness(
    bindings: Seq<Option<IrqHandler>>,
    irq: int,
    first: IrqHandler,
    second: IrqHandler,
)
    requires
        0 <= irq < bindings.len(),
        bindings[irq] is None,
    ensures
        bindings_after_register(bindings, irq, first)[irq] == Some(first),
        bindings_after_register(bindings_after_register(bindings, irq, first), irq, second)
            == bindings_after_register(bindings, irq, first),
{
}

/// Fixed-capacity mapping from interrupt id to an optional handler, with an
/// independent per-id enabled flag mirroring the controller's mask state.
pub struct InterruptTable {
    handlers: Vec<Option<IrqHandler>>,
    enabled: Vec<bool>,
}

impl InterruptTable {
    /// The handler bound to each interrupt id, unbound ids holding `None`.
    pub closed spec fn bindings(self) -> Seq<Option<IrqHandler>> {
        self.handlers@
    }

    /// The per-id enabled (unmasked) flags.
    pub closed spec fn enabled_flags(self) -> Seq<bool> {
        self.enabled@
    }

    /// Both maps cover exactly the controller's id space.
    pub open spec fn wf(self) -> bool {
        &&& self.bindings().len() == MAX_IRQ
        &&& self.enabled_flags().len() == MAX_IRQ
    }

    /// `irq` is bound to a handler.
    pub open spec fn is_bound(self, irq: usize) -> bool {
        self.bindings()[irq as int] is Some
    }

    /// `irq` is unmasked at the controller.
    pub open spec fn is_unmasked(self, irq: usize) -> bool {
        self.enabled_flags()[irq as int]
    }

    /// A fresh table: every id unbound and masked.
    pub fn new() -> (r: InterruptTable)
        ensures
            r.wf(),
            forall|i: int| 0 <= i < MAX_IRQ ==> r.bindings()[i] is None,
            forall|i: int| 0 <= i < MAX_IRQ ==> !r.enabled_flags()[i],
    {
        let mut handlers: Vec<Option<IrqHandler>> = Vec::new();
        let mut enabled: Vec<bool> = Vec::new();
        let mut i: usize = 0;
        while i < MAX_IRQ
            invariant
                i <= MAX_IRQ,
                handlers@.len() == i,
                enabled@.len() == i,
                forall|j: int| 0 <= j < i ==> handlers@[j] is None,
                forall|j: int| 0 <= j < i ==> !enabled@[j],
            decreases MAX_IRQ - i,
        {
            handlers.push(None);
            enabled.push(false);
            i += 1;
        }
        InterruptTable { handlers, enabled }
    }

    /// Masks or unmasks `irq` at the controller. Idempotent: the new state
    /// depends only on the argument, not on the old flag.
    pub fn set_enable(&mut self, irq: usize, enabled: bool)
        requires
            old(self).wf(),
            irq < MAX_IRQ,
        ensures
            final(self).wf(),
            final(self).enabled_flags() == old(self).enabled_flags().update(irq as int, enabled),
            final(self).bindings() == old(self).bindings(),
    {
        self.enabled[irq] = enabled;
    }

    /// Binds `handler` to `irq`, for the system's lifetime. Returns whether
    /// the binding was made: a second registration on an already-bound id
    /// is rejected and leaves the first binding in place.
    pub fn register_handler(&mut self, irq: usize, handler: IrqHandler) -> (ok: bool)
        requires
            old(self).wf(),
            irq < MAX_IRQ,
        ensures
            final(self).wf(),
            ok <==> !old(self).is_bound(irq),
            final(self).bindings() == bindings_after_register(
                old(self).bindings(),
                irq as int,
                handler,
            ),
            ok ==> final(self).bindings() == old(self).bindings().update(
                irq as int,
                Some(handler),
            ),
            !ok ==> final(self).bindings() == old(self).bindings(),
            final(self).enabled_flags() == old(self).enabled_flags(),
    {
        if self.handlers[irq].is_some() {
            return false;
        }
        self.handlers[irq] = Some(handler);
        true
    }

    /// Looks up the handler bound to `irq`.
    pub fn handler_for(&self, irq: usize) -> (r: Option<IrqHandler>)
        requires
            self.wf(),
            irq < MAX_IRQ,
        ensures
            r == self.bindings()[irq as int],
    {
        self.handlers[irq]
    }

    /// Reads the enabled flag of `irq`.
    pub fn is_enabled(&self, irq: usize) -> (r: bool)
        requires
            self.wf(),
            irq < MAX_IRQ,
        ensures
            r == self.is_unmasked(irq),
    {
        self.enabled[irq]
    }
}

} // verus!
