//! The interrupt-safe lock and the cross-context ordering it guarantees.
//!
//! `acquire` first masks interrupt delivery on the calling core, then spins
//! on the flag until it is clear and sets it; `release` clears the flag and
//! restores the core's earlier interrupt-enable state. Code holding the
//! lock cannot be interrupted on its own core, and a context on another
//! core competes only through the flag, so critical sections over one
//! device handle are totally ordered.
//!
//! The second half of this module proves that ordering sufficient: over
//! every interleaving of a writer context and a reader context that both
//! follow the lock protocol around the watchdog's two-word comparator, the
//! reader never assembles a torn value.

use vstd::prelude::*;
use crate::watchdog_phytium::join64;
use crate::watchdog_phytium::lemma_comparator_round_trip;

verus! {

/// The spin flag of an interrupt-safe lock, together with the saved
/// interrupt-enable state of the core that holds it. Not reentrant: the
/// holding core re-acquiring would deadlock, so acquisition demands a free
/// flag.
pub struct IrqSafeLock {
    /// The spin flag: some context is inside its critical section.
    pub locked: bool,
    /// The holder's interrupt-enable state at acquisition, restored at
    /// release.
    pub saved_irq_state: bool,
}

impl IrqSafeLock {
    /// A fresh lock: free, with nothing saved.
    pub fn new() -> (r: IrqSafeLock)
        ensures
            !r.locked,
    {
        IrqSafeLock { locked: false, saved_irq_state: false }
    }

    /// Masks interrupts on the calling core (whose delivery state is
    /// `irq_enabled`), then takes the free flag. The model demands the
    /// flag free: a taken flag means the caller spins, and on the holder's
    /// own core it would spin forever.
    pub fn acquire(&mut self, irq_enabled: bool)
        requires
            !old(self).locked,
        ensures
            final(self).locked,
            final(self).saved_irq_state == irq_enabled,
    {
        self.saved_irq_state = irq_enabled;
        self.locked = true;
    }

    /// Clears the flag and reports the interrupt-enable state the core
    /// must restore.
    pub fn release(&mut self) -> (restore_irq: bool)
        requires
            old(self).locked,
        ensures
            !final(self).locked,
            restore_irq == old(self).saved_irq_state,
    {
        self.locked = false;
        self.saved_irq_state
    }
}

/// One of the two execution contexts contending for a device handle:
/// normal code on one core and an interrupt handler, possibly on another.
#[derive(Clone, Copy, PartialEq, Eq, Structural, Debug)]
pub enum Context {
    /// The context writing the comparator.
    Writer,
    /// The context reading the comparator.
    Reader,
}

/// How far the writing context has come: acquire, store the high word,
/// store the low word, release.
#[derive(Clone, Copy, PartialEq, Eq, Structural, Debug)]
pub enum WriterPhase {
    /// Before its critical section.
    WIdle,
    /// Holding the lock, nothing stored yet.
    WHolding,
    /// High word stored; the comparator is torn until the low word lands.
    WWroteHigh,
    /// Both words stored, lock still held.
    WWroteLow,
    /// Critical section over.
    WDone,
}

/// How far the reading context has come: acquire, load the high word,
/// load the low word, release.
#[derive(Clone, Copy, PartialEq, Eq, Structural, Debug)]
pub enum ReaderPhase {
    /// Before its critical section.
    RIdle,
    /// Holding the lock, nothing loaded yet.
    RHolding,
    /// High word loaded.
    RReadHigh,
    /// Both words loaded, lock still held.
    RReadLow,
    /// Critical section over; the assembled value is the observation.
    RDone,
}

/// The high register half of a 64-bit comparator value.
pub open spec fn high_half(v: u64) -> u32 {
    (v >> 32) as u32
}

/// The low register half of a 64-bit comparator value.
pub open spec fn low_half(v: u64) -> u32 {
    v as u32
}

/// Two contexts interleaving over one device handle: the lock, the two
/// comparator registers, each context's progress, and the reader's local
/// copies of the two words. `old_val` and `new_val` are the scenario's
/// parameters: the comparator's initial value and the value being written.
pub struct TwoContextComparator {
    /// Which context is inside its critical section, if any. This stands
    /// for the spin flag together with the holder's masked interrupts:
    /// at most one context at a time.
    pub holder: Option<Context>,
    /// The shared high comparator register.
    pub wcvh: u32,
    /// The shared low comparator register.
    pub wcvl: u32,
    /// The writer's progress.
    pub writer: WriterPhase,
    /// The reader's progress.
    pub reader: ReaderPhase,
    /// The reader's loaded high word.
    pub rhigh: u32,
    /// The reader's loaded low word.
    pub rlow: u32,
    /// The comparator value before the scenario.
    pub old_val: u64,
    /// The value the writer is storing.
    pub new_val: u64,
}

impl TwoContextComparator {
    /// The writer is inside its critical section.
    pub open spec fn writer_in_cs(self) -> bool {
        self.writer == WriterPhase::WHolding || self.writer == WriterPhase::WWroteHigh
            || self.writer == WriterPhase::WWroteLow
    }

    /// The reader is inside its critical section.
    pub open spec fn reader_in_cs(self) -> bool {
        self.reader == ReaderPhase::RHolding || self.reader == ReaderPhase::RReadHigh
            || self.reader == ReaderPhase::RReadLow
    }

    /// The starting state: comparator holding `old_val`, lock free, both
    /// contexts before their critical sections.
    pub open spec fn is_init(self) -> bool {
        &&& self.holder is None
        &&& self.wcvh == high_half(self.old_val)
        &&& self.wcvl == low_half(self.old_val)
        &&& self.writer == WriterPhase::WIdle
        &&& self.reader == ReaderPhase::RIdle
    }

    /// The inductive invariant: lock holdership matches each context's
    /// phase, the registers are torn only while the writer is between its
    /// two stores, and whatever the reader has loaded so far assembles to
    /// a complete value.
    pub open spec fn inv(self) -> bool {
        &&& self.writer_in_cs() ==> self.holder == Some(Context::Writer)
        &&& self.reader_in_cs() ==> self.holder == Some(Context::Reader)
        &&& (self.writer == WriterPhase::WIdle || self.writer == WriterPhase::WHolding) ==> (
        self.wcvh == high_half(self.old_val) && self.wcvl == low_half(self.old_val))
        &&& self.writer == WriterPhase::WWroteHigh ==> (self.wcvh == high_half(self.new_val)
            && self.wcvl == low_half(self.old_val))
        &&& (self.writer == WriterPhase::WWroteLow || self.writer == WriterPhase::WDone) ==> (
        self.wcvh == high_half(self.new_val) && self.wcvl == low_half(self.new_val))
        &&& self.reader == ReaderPhase::RReadHigh ==> self.rhigh == self.wcvh
        &&& (self.reader == ReaderPhase::RReadLow || self.reader == ReaderPhase::RDone) ==> (
        join64(self.rhigh, self.rlow) == self.old_val || join64(self.rhigh, self.rlow)
            == self.new_val)
    }

    /// The writer takes the free lock.
    pub open spec fn writer_acquire_step(pre: Self, post: Self) -> bool {
        &&& pre.writer == WriterPhase::WIdle
        &&& pre.holder is None
        &&& post == (Self { holder: Some(Context::Writer), writer: WriterPhase::WHolding, ..pre })
    }

    /// The writer stores the high word, as the hardware demands, first.
    pub open spec fn writer_store_high_step(pre: Self, post: Self) -> bool {
        &&& pre.writer == WriterPhase::WHolding
        &&& post == (Self {
            wcvh: high_half(pre.new_val),
            writer: WriterPhase::WWroteHigh,
            ..pre
        })
    }

    /// The writer stores the low word.
    pub open spec fn writer_store_low_step(pre: Self, post: Self) -> bool {
        &&& pre.writer == WriterPhase::WWroteHigh
        &&& post == (Self { wcvl: low_half(pre.new_val), writer: WriterPhase::WWroteLow, ..pre })
    }

    /// The writer releases the lock.
    pub open spec fn writer_release_step(pre: Self, post: Self) -> bool {
        &&& pre.writer == WriterPhase::WWroteLow
        &&& pre.holder == Some(Context::Writer)
        &&& post == (Self { holder: None, writer: WriterPhase::WDone, ..pre })
    }

    /// The reader takes the free lock.
    pub open spec fn reader_acquire_step(pre: Self, post: Self) -> bool {
        &&& pre.reader == ReaderPhase::RIdle
        &&& pre.holder is None
        &&& post == (Self { holder: Some(Context::Reader), reader: ReaderPhase::RHolding, ..pre })
    }

    /// The reader loads the high word.
    pub open spec fn reader_load_high_step(pre: Self, post: Self) -> bool {
        &&& pre.reader == ReaderPhase::RHolding
        &&& post == (Self { rhigh: pre.wcvh, reader: ReaderPhase::RReadHigh, ..pre })
    }

    /// The reader loads the low word.
    pub open spec fn reader_load_low_step(pre: Self, post: Self) -> bool {
        &&& pre.reader == ReaderPhase::RReadHigh
        &&& post == (Self { rlow: pre.wcvl, reader: ReaderPhase::RReadLow, ..pre })
    }

    /// The reader releases the lock; its observation is complete.
    pub open spec fn reader_release_step(pre: Self, post: Self) -> bool {
        &&& pre.reader == ReaderPhase::RReadLow
        &&& pre.holder == Some(Context::Reader)
        &&& post == (Self { holder: None, reader: ReaderPhase::RDone, ..pre })
    }

    /// Any enabled move of the writer.
    pub open spec fn writer_next(pre: Self, post: Self) -> bool {
        ||| Self::writer_acquire_step(pre, post)
        ||| Self::writer_store_high_step(pre, post)
        ||| Self::writer_store_low_step(pre, post)
        ||| Self::writer_release_step(pre, post)
    }

    /// Any enabled move of the reader.
    pub open spec fn reader_next(pre: Self, post: Self) -> bool {
        ||| Self::reader_acquire_step(pre, post)
        ||| Self::reader_load_high_step(pre, post)
        ||| Self::reader_load_low_step(pre, post)
        ||| Self::reader_release_step(pre, post)
    }

    /// Any enabled move of either context.
    pub open spec fn next(pre: Self, post: Self) -> bool {
        ||| Self::writer_next(pre, post)
        ||| Self::reader_next(pre, post)
    }

    /// The writer has an enabled move: it can enter its critical section
    /// only while the lock is free, and inside it it always advances.
    pub open spec fn writer_can_move(self) -> bool {
        ||| (self.writer == WriterPhase::WIdle && self.holder is None)
        ||| self.writer_in_cs()
    }

    /// The reader has an enabled move, on the same terms as the writer.
    pub open spec fn reader_can_move(self) -> bool {
        ||| (self.reader == ReaderPhase::RIdle && self.holder is None)
        ||| self.reader_in_cs()
    }

    /// Sets up the scenario: comparator holding `old_val`, both contexts
    /// about to run, the writer set to store `new_val`.
    pub fn start(old_val: u64, new_val: u64) -> (r: TwoContextComparator)
        ensures
            r.is_init(),
            r.inv(),
            r.old_val == old_val,
            r.new_val == new_val,
    {
        proof {
            lemma_comparator_round_trip(old_val);
        }
        TwoContextComparator {
            holder: None,
            wcvh: (old_val >> 32) as u32,
            wcvl: old_val as u32,
            writer: WriterPhase::WIdle,
            reader: ReaderPhase::RIdle,
            rhigh: 0,
            rlow: 0,
            old_val,
            new_val,
        }
    }

    /// Runs one enabled move of either context, chosen by the caller's
    /// schedule.
    pub fn step(&mut self, ctx: Context) -> (moved: bool)
        requires
            old(self).inv(),
        ensures
            final(self).inv(),
            ctx == Context::Writer ==> moved == old(self).writer_can_move(),
            ctx == Context::Reader ==> moved == old(self).reader_can_move(),
            moved && ctx == Context::Writer ==> Self::writer_next(*old(self), *final(self)),
            moved && ctx == Context::Reader ==> Self::reader_next(*old(self), *final(self)),
            !moved ==> *final(self) == *old(self),
            final(self).old_val == old(self).old_val,
            final(self).new_val == old(self).new_val,
    {
        proof {
            lemma_step_preserves_inv(*self, ctx);
        }
        match ctx {
            Context::Writer => match self.writer {
                WriterPhase::WIdle => {
                    if self.holder.is_none() {
                        self.holder = Some(Context::Writer);
                        self.writer = WriterPhase::WHolding;
                        true
                    } else {
                        false
                    }
                },
                WriterPhase::WHolding => {
                    self.wcvh = (self.new_val >> 32) as u32;
                    self.writer = WriterPhase::WWroteHigh;
                    true
                },
                WriterPhase::WWroteHigh => {
                    self.wcvl = self.new_val as u32;
                    self.writer = WriterPhase::WWroteLow;
                    true
                },
                WriterPhase::WWroteLow => {
                    self.holder = None;
                    self.writer = WriterPhase::WDone;
                    true
                },
                WriterPhase::WDone => false,
            },
            Context::Reader => match self.reader {
                ReaderPhase::RIdle => {
                    if self.holder.is_none() {
                        self.holder = Some(Context::Reader);
                        self.reader = ReaderPhase::RHolding;
                        true
                    } else {
                        false
                    }
                },
                ReaderPhase::RHolding => {
                    self.rhigh = self.wcvh;
                    self.reader = ReaderPhase::RReadHigh;
                    true
                },
                ReaderPhase::RReadHigh => {
                    self.rlow = self.wcvl;
                    self.reader = ReaderPhase::RReadLow;
                    true
                },
                ReaderPhase::RReadLow => {
                    self.holder = None;
                    self.reader = ReaderPhase::RDone;
                    true
                },
                ReaderPhase::RDone => false,
            },
        }
    }

    /// The value the reader observed, once its critical section is over.
    pub fn observed(&self) -> (r: u64)
        requires
            self.inv(),
            self.reader == ReaderPhase::RDone,
        ensures
            r == join64(self.rhigh, self.rlow),
            r == self.old_val || r == self.new_val,
    {
        let rhigh = self.rhigh as u64;
        let rlow = self.rlow as u64;
        (rhigh << 32) | rlow
    }
}

/// Law: the lock gives mutual exclusion, so no interleaving of the two
/// contexts lets the reader observe a torn comparator: whatever it
/// assembles is the complete old value or the complete new one. Stated as
/// an invariant that holds initially and is preserved by every enabled
/// move of either context.
pub proof fn lemma_no_torn_observation(s: TwoContextComparator)
    requires
        s.inv(),
        s.reader == ReaderPhase::RDone,
    ensures
        join64(s.rhigh, s.rlow) == s.old_val || join64(s.rhigh, s.rlow) == s.new_val,
{
}

/// Every move of either context preserves the interleaving invariant.
pub proof fn lemma_next_preserves_inv(pre: TwoContextComparator, post: TwoContextComparator)
    requires
        pre.inv(),
        TwoContextComparator::next(pre, post),
    ensures
        post.inv(),
{
    lemma_comparator_round_trip(pre.old_val);
    lemma_comparator_round_trip(pre.new_val);
}

/// Helper tying the exec `step` to the invariant: whichever move `ctx`
/// can make from `s` lands in a state satisfying the invariant again.
proof fn lemma_step_preserves_inv(s: TwoContextComparator, ctx: Context)
    requires
        s.inv(),
    ensures
        forall|post: TwoContextComparator|
            TwoContextComparator::next(s, post) ==> #[trigger] post.inv(),
{
    assert forall|post: TwoContextComparator|
        TwoContextComparator::next(s, post) implies #[trigger] post.inv() by {
        lemma_next_preserves_inv(s, post);
    }
}

} // verus!
