use vstd::prelude::*;
use crate::gic::{
    enable_effect, register_effect, HandlerSlot, IRQNumber, PendingIrqOutcome, RegisterError, GICv2,
    INTERRUPT_ID_MASK, MAX_IRQ_NUMBER,
};
use crate::locks::{may_write_init_state, InitStateLock, ReadWriteEx};
use crate::state::StateManager;

verus! {

/// The executing core's IRQ mask bit (the I flag of its interrupt mask register), as a value.
pub struct IrqMaskState {
    masked: bool,
}

impl IrqMaskState {
    pub closed spec fn spec_masked(&self) -> bool {
        self.masked
    }

    /// A core whose IRQ mask bit reads `masked`.
    pub fn new(masked: bool) -> (r: IrqMaskState)
        ensures
            r.spec_masked() == masked,
    {
        IrqMaskState { masked }
    }

    /// Return whether IRQs are masked on the executing core.
    pub fn is_local_irq_masked(&self) -> (r: bool)
        ensures
            r == self.spec_masked(),
    {
        self.masked
    }

    /// Mask IRQs on the executing core and return the mask state that held before.
    pub fn local_irq_mask_save(&mut self) -> (saved: bool)
        ensures
            saved == old(self).spec_masked(),
            final(self).spec_masked(),
    {
        let saved = self.masked;
        self.masked = true;
        saved
    }

    /// Put back a mask state returned by `local_irq_mask_save`.
    pub fn local_irq_restore(&mut self, saved: bool)
        ensures
            final(self).spec_masked() == saved,
    {
        self.masked = saved;
    }
}

/// Executes `f` while IRQs are masked on the executing core, then restores the mask state that
/// held before the call, whatever `f` did to it. `f` sees the core with IRQs masked.
pub fn exec_with_irq_masked<T, F: FnOnce(&mut IrqMaskState) -> T>(
    irq: &mut IrqMaskState,
    f: F,
) -> (r: T)
    requires
        forall|c: &mut IrqMaskState| c.spec_masked() ==> f.requires((c,)),
    ensures
        final(irq).spec_masked() == old(irq).spec_masked(),
        exists|c: &mut IrqMaskState| c.spec_masked() && f.ensures((c,), r),
{
    let saved = irq.local_irq_mask_save();
    let ret = f(irq);
    irq.local_irq_restore(saved);
    ret
}

/// Implemented by types that handle IRQs.
pub trait IRQHandler {
    /// Whether `r` is a result that this handler may return.
    spec fn may_return(&self, r: Result<(), &'static str>) -> bool;

    /// Called when the corresponding interrupt is asserted.
    fn handle(&self) -> (r: Result<(), &'static str>)
        ensures
            self.may_return(r),
    ;
}

/// Interrupt descriptor: an IRQ number, a name for diagnostics and the handler to run.
#[derive(Clone, Copy)]
pub struct IRQHandlerDescriptor<T, H> {
    number: T,
    name: &'static str,
    handler: H,
}

impl<T: Copy, H: Copy> IRQHandlerDescriptor<T, H> {
    pub closed spec fn spec_number(&self) -> T {
        self.number
    }

    pub closed spec fn spec_name(&self) -> &'static str {
        self.name
    }

    pub closed spec fn spec_handler(&self) -> H {
        self.handler
    }

    pub fn new(number: T, name: &'static str, handler: H) -> (r: Self)
        ensures
            r.spec_number() == number,
            r.spec_name() == name,
            r.spec_handler() == handler,
    {
        IRQHandlerDescriptor { number, name, handler }
    }

    pub fn number(&self) -> (r: T)
        ensures
            r == self.spec_number(),
    {
        self.number
    }

    pub fn name(&self) -> (r: &'static str)
        ensures
            r == self.spec_name(),
    {
        self.name
    }

    pub fn handler(&self) -> (r: H)
        ensures
            r == self.spec_handler(),
    {
        self.handler
    }
}

/// Evidence that the executing core runs in IRQ context, that is inside an interrupt vector
/// or a call made from one. It carries no data and can only be made inside this crate, by the
/// interrupt vector's own code.
pub struct IRQContext {
    _private: (),
}

impl IRQContext {
    pub(crate) fn new() -> (r: IRQContext) {
        IRQContext { _private: () }
    }
}

/// An interrupt controller as the architectural interrupt code sees it.
pub trait IRQManager<H: Copy>: Sized {
    /// The implementation's own well-formedness.
    spec fn inv(&self) -> bool;

    /// Whether this manager drives a controller, and so takes handler registrations.
    spec fn accepts_handlers(&self) -> bool;

    /// The handler table: slot `i` holds the descriptor registered for IRQ `i`, if any.
    spec fn table(&self) -> Seq<HandlerSlot<H>>;

    /// The controller's enable-set registers.
    spec fn enabled(&self) -> Seq<u32>;

    /// Whether a pending interrupt with ID `id` is served by a registered handler.
    spec fn serves(&self, id: u32) -> bool;

    /// Register a handler: as `register_effect` says on a controller, refused with `NoManager`
    /// otherwise.
    fn register_handler(
        &mut self,
        state: &StateManager,
        irq: &IrqMaskState,
        descriptor: IRQHandlerDescriptor<IRQNumber, H>,
    ) -> (r: Result<(), RegisterError>)
        requires
            old(self).inv(),
            state.wf(),
            may_write_init_state(state.view(), irq.spec_masked()),
        ensures
            final(self).inv(),
            final(self).accepts_handlers() == old(self).accepts_handlers(),
            final(self).enabled() == old(self).enabled(),
            old(self).accepts_handlers() ==> (r, final(self).table()) == register_effect(
                old(self).table(),
                descriptor,
            ),
            !old(self).accepts_handlers() ==> r is Err && r->Err_0 == RegisterError::NoManager
                && final(self).table() == old(self).table(),
    ;

    /// Enable an interrupt in the controller: as `enable_effect` says on a controller, nothing
    /// otherwise.
    fn enable(&mut self, n: &IRQNumber)
        requires
            old(self).inv(),
        ensures
            final(self).inv(),
            final(self).accepts_handlers() == old(self).accepts_handlers(),
            final(self).table() == old(self).table(),
            old(self).accepts_handlers() ==> final(self).enabled() == enable_effect(
                old(self).enabled(),
                n.spec_value(),
            ),
            !old(self).accepts_handlers() ==> final(self).enabled() == old(self).enabled(),
    ;

    /// Serve the pending interrupt whose acknowledge value is `iar`: run the handler that serves
    /// its ID, if any, and name that ID for the end-of-interrupt write. Reachable only with an
    /// `IRQContext`, that is from IRQ context.
    fn handle_pending_irqs(&self, ic: &IRQContext, iar: u32) -> (r: PendingIrqOutcome)
        requires
            self.inv(),
        ensures
            r.eoi == iar & INTERRUPT_ID_MASK,
            r.handled is Some <==> self.serves(r.eoi),
    ;

    /// The registered handlers, as (IRQ number, name) pairs, for diagnostics.
    fn print_handler(&self) -> Vec<(usize, &'static str)>
        requires
            self.inv(),
    ;
}

impl<H: Copy + IRQHandler> IRQManager<H> for GICv2<H> {
    open spec fn inv(&self) -> bool {
        self.wf()
    }

    open spec fn accepts_handlers(&self) -> bool {
        true
    }

    open spec fn table(&self) -> Seq<HandlerSlot<H>> {
        self.handlers()
    }

    open spec fn enabled(&self) -> Seq<u32> {
        self.enable_words()
    }

    open spec fn serves(&self, id: u32) -> bool {
        id <= MAX_IRQ_NUMBER && self.handlers()[id as int] is Some
    }

    fn register_handler(
        &mut self,
        state: &StateManager,
        irq: &IrqMaskState,
        descriptor: IRQHandlerDescriptor<IRQNumber, H>,
    ) -> (r: Result<(), RegisterError>) {
        GICv2::register_handler(self, state, irq, descriptor)
    }

    fn enable(&mut self, n: &IRQNumber) {
        GICv2::enable(self, n)
    }

    fn handle_pending_irqs(&self, ic: &IRQContext, iar: u32) -> (r: PendingIrqOutcome) {
        GICv2::handle_pending_irqs(self, ic, iar)
    }

    fn print_handler(&self) -> Vec<(usize, &'static str)> {
        self.registered_handlers()
    }
}

/// The manager in place before a real one is registered: it registers nothing, enables
/// nothing and runs no handler.
pub struct NullIrqManager;

impl<H: Copy> IRQManager<H> for NullIrqManager {
    open spec fn inv(&self) -> bool {
        true
    }

    open spec fn accepts_handlers(&self) -> bool {
        false
    }

    open spec fn table(&self) -> Seq<HandlerSlot<H>> {
        Seq::empty()
    }

    open spec fn enabled(&self) -> Seq<u32> {
        Seq::empty()
    }

    open spec fn serves(&self, id: u32) -> bool {
        false
    }

    fn register_handler(
        &mut self,
        state: &StateManager,
        irq: &IrqMaskState,
        descriptor: IRQHandlerDescriptor<IRQNumber, H>,
    ) -> (r: Result<(), RegisterError>) {
        Err(RegisterError::NoManager)
    }

    fn enable(&mut self, n: &IRQNumber) {
    }

    fn handle_pending_irqs(&self, ic: &IRQContext, iar: u32) -> (r: PendingIrqOutcome) {
        PendingIrqOutcome { eoi: iar & INTERRUPT_ID_MASK, handled: None }
    }

    fn print_handler(&self) -> Vec<(usize, &'static str)> {
        Vec::new()
    }
}

/// The IRQ manager in use: the null manager until one is registered.
pub enum ActiveIrqManager<M> {
    Null(NullIrqManager),
    Registered(M),
}

/// The one shared reference to the active IRQ manager. It can be replaced only during the init
/// phase, with IRQs masked.
pub struct IrqManagerRegistry<M> {
    current: InitStateLock<ActiveIrqManager<M>>,
}

impl<M> IrqManagerRegistry<M> {
    pub closed spec fn view(&self) -> ActiveIrqManager<M> {
        self.current.view()
    }

    /// A registry that holds the null manager.
    pub fn new() -> (r: Self)
        ensures
            r.view() is Null,
    {
        IrqManagerRegistry { current: InitStateLock::new(ActiveIrqManager::Null(NullIrqManager)) }
    }
}

/// Register a new IRQ manager. Only allowed during the init phase, with IRQs masked.
pub fn register_irq_manager<M>(
    registry: &mut IrqManagerRegistry<M>,
    state: &StateManager,
    irq: &IrqMaskState,
    new_manager: M,
)
    requires
        state.wf(),
        may_write_init_state(state.view(), irq.spec_masked()),
    ensures
        final(registry).view() == ActiveIrqManager::Registered(new_manager),
{
    registry.current.write(
        state,
        irq,
        (|manager: &mut ActiveIrqManager<M>| -> (u: ())
            ensures
                *final(manager) == ActiveIrqManager::Registered(new_manager),
            { *manager = ActiveIrqManager::Registered(new_manager); }),
    )
}

/// Return the currently registered IRQ manager, which the architectural interrupt code uses.
pub fn irq_manager<'a, M>(registry: &'a IrqManagerRegistry<M>) -> (r: &'a ActiveIrqManager<M>)
    ensures
        *r == registry.view(),
{
    registry.current.read((|manager: &'a ActiveIrqManager<M>| -> (m: &'a ActiveIrqManager<M>)
        ensures
            m == manager,
        { manager }))
}

/// The body of the IRQ exception vector: being in IRQ context, it hands the pending interrupt,
/// whose acknowledge value is `iar`, to the active manager.
pub fn dispatch_pending_irq<H: Copy, M: IRQManager<H>>(
    manager: &ActiveIrqManager<M>,
    iar: u32,
) -> (r: PendingIrqOutcome)
    requires
        manager is Registered ==> manager->Registered_0.inv(),
    ensures
        r.eoi == iar & INTERRUPT_ID_MASK,
        manager is Null ==> r.handled is None,
        manager is Registered ==> (r.handled is Some <==> manager->Registered_0.serves(r.eoi)),
{
    let ic = IRQContext::new();
    match manager {
        ActiveIrqManager::Null(_) => PendingIrqOutcome { eoi: iar & INTERRUPT_ID_MASK, handled: None },
        ActiveIrqManager::Registered(m) => m.handle_pending_irqs(&ic, iar),
    }
}

} // verus!
