use vstd::prelude::*;
use crate::interupts::IrqMaskState;
use crate::state::{single_core_phase, State, StateManager};

verus! {

/// Whether the init-phase lock may be written: only during the init phase, with IRQs masked on
/// the executing core. A write at any other time is a programming error.
pub open spec fn may_write_init_state(phase: State, masked: bool) -> bool {
    phase == State::Init && masked
}

/// The init-phase lock admits a write exactly during the init phase with IRQs masked on the
/// executing core. In any other phase, or with IRQs unmasked, a write is a fatal programming
/// error, which the precondition of `ReadWriteEx::write` rules out.
pub proof fn lemma_init_lock_write_condition(phase: State, masked: bool)
    ensures
        may_write_init_state(phase, masked) <==> (phase == State::Init && masked),
        phase != State::Init ==> !may_write_init_state(phase, masked),
        !masked ==> !may_write_init_state(phase, masked),
{
}

/// Any object implementing this trait guarantees exclusive access to the data wrapped within
/// the mutex for the duration of the provided closure.
pub trait Mutex {
    /// The type of the data that is wrapped by this mutex.
    type Data;

    spec fn data(&self) -> Self::Data;

    /// Locks the mutex and grants the closure temporary mutable access to the wrapped data, with
    /// IRQs masked on the executing core: the closure is handed the core's IRQ mask bit as it
    /// runs, which is set. The mask state of before is restored afterwards. Only sound while a
    /// single core runs.
    fn lock<R, F: FnOnce(&mut Self::Data, bool) -> R>(
        &mut self,
        state: &StateManager,
        irq: &mut IrqMaskState,
        f: F,
    ) -> (r: R)
        requires
            state.wf(),
            single_core_phase(state.view()),
            forall|d: &mut Self::Data| *d == old(self).data() ==> f.requires((d, true)),
        ensures
            exists|d: &mut Self::Data|
                *d == old(self).data() && *final(d) == final(self).data() && f.ensures((d, true), r),
            final(irq).spec_masked() == old(irq).spec_masked(),
    ;
}

/// A reader-writer exclusion type: it allows either a number of readers or at most one writer
/// at any point in time.
pub trait ReadWriteEx {
    /// The type of encapsulated data.
    type Data;

    spec fn data(&self) -> Self::Data;

    /// Grants temporary mutable access to the encapsulated data. Only allowed during the init
    /// phase, with IRQs masked on the executing core.
    fn write<R, F: FnOnce(&mut Self::Data) -> R>(
        &mut self,
        state: &StateManager,
        irq: &IrqMaskState,
        f: F,
    ) -> (r: R)
        requires
            state.wf(),
            may_write_init_state(state.view(), irq.spec_masked()),
            forall|d: &mut Self::Data| *d == old(self).data() ==> f.requires((d,)),
        ensures
            exists|d: &mut Self::Data|
                *d == old(self).data() && *final(d) == final(self).data() && f.ensures((d,), r),
    ;

    /// Grants temporary immutable access to the encapsulated data.
    fn read<'a, R, F: FnOnce(&'a Self::Data) -> R>(&'a self, f: F) -> (r: R)
        requires
            f.requires((&self.data(),)),
        ensures
            f.ensures((&self.data(),), r),
    ;
}

/// A pseudo-lock that is read-write during the single-core kernel init phase and read-only
/// afterwards. It holds data that is populated during init, when no concurrency exists.
pub struct InitStateLock<T> {
    data: T,
}

impl<T> InitStateLock<T> {
    pub closed spec fn view(&self) -> T {
        self.data
    }

    /// Create an instance.
    pub fn new(data: T) -> (r: Self)
        ensures
            r.view() == data,
    {
        InitStateLock { data }
    }
}

impl<T> ReadWriteEx for InitStateLock<T> {
    type Data = T;

    open spec fn data(&self) -> T {
        self.view()
    }

    fn write<R, F: FnOnce(&mut T) -> R>(
        &mut self,
        state: &StateManager,
        irq: &IrqMaskState,
        f: F,
    ) -> (r: R) {
        f(&mut self.data)
    }

    fn read<'a, R, F: FnOnce(&'a T) -> R>(&'a self, f: F) -> (r: R) {
        f(&self.data)
    }
}

/// A lock that masks IRQs on the executing core for the duration of its critical section. It
/// does not protect against other cores, so it may only be used while the kernel is single-core.
pub struct IRQSafeMutex<T> {
    data: T,
}

impl<T> IRQSafeMutex<T> {
    pub closed spec fn view(&self) -> T {
        self.data
    }

    pub fn new(data: T) -> (r: Self)
        ensures
            r.view() == data,
    {
        IRQSafeMutex { data }
    }
}

impl<T> Mutex for IRQSafeMutex<T> {
    type Data = T;

    open spec fn data(&self) -> T {
        self.view()
    }

    fn lock<R, F: FnOnce(&mut T, bool) -> R>(
        &mut self,
        state: &StateManager,
        irq: &mut IrqMaskState,
        f: F,
    ) -> (r: R) {
        let saved = irq.local_irq_mask_save();
        let masked = irq.is_local_irq_masked();
        let data = &mut self.data;
        let ret = f(data, masked);
        irq.local_irq_restore(saved);
        ret
    }
}

} // verus!
