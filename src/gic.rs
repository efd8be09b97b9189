use vstd::prelude::*;
use crate::interupts::{IRQContext, IRQHandler, IRQHandlerDescriptor, IrqMaskState};
use crate::locks::{may_write_init_state, InitStateLock, ReadWriteEx};
use crate::state::StateManager;

verus! {

/// Highest IRQ number that the handler table holds. The architecture allows up to 1019; the
/// table is kept smaller to save space.
pub const MAX_IRQ_NUMBER: usize = 300;

/// Number of slots in the handler table.
pub const HANDLER_SLOTS: usize = 301;

/// Number of 32-bit enable-set registers that cover every slot.
pub const ENABLE_WORDS: usize = 10;

/// Mask of the interrupt ID field of the CPU interface's acknowledge register.
pub const INTERRUPT_ID_MASK: u32 = 0x3ff;

/// An IRQ number in `0..=MAX_IRQ_NUMBER`.
#[derive(Clone, Copy)]
pub struct IRQNumber {
    n: usize,
}

impl IRQNumber {
    #[verifier::type_invariant]
    closed spec fn bounded(&self) -> bool {
        self.n <= MAX_IRQ_NUMBER
    }

    pub closed spec fn spec_value(&self) -> usize {
        self.n
    }

    /// The IRQ number `n`, or `None` when `n` lies above `MAX_IRQ_NUMBER`.
    pub fn new(n: usize) -> (r: Option<IRQNumber>)
        ensures
            r is Some <==> n <= MAX_IRQ_NUMBER,
            r is Some ==> r->Some_0.spec_value() == n,
    {
        if n <= MAX_IRQ_NUMBER {
            Some(IRQNumber { n })
        } else {
            None
        }
    }

    pub fn get(&self) -> (r: usize)
        ensures
            r == self.spec_value(),
            r <= MAX_IRQ_NUMBER,
    {
        proof {
            use_type_invariant(self);
        }
        self.n
    }
}

/// Why a handler registration was refused.
#[derive(Debug, Clone, Copy, PartialEq, Eq, Structural)]
pub enum RegisterError {
    /// The IRQ number already has a handler; the table was left unchanged.
    AlreadyRegistered,
    /// No interrupt controller is registered yet.
    NoManager,
}

/// What serving one pending interrupt did.
#[derive(Clone, Copy)]
pub struct PendingIrqOutcome {
    /// The interrupt ID written to the end-of-interrupt register.
    pub eoi: u32,
    /// The handler's own result, or `None` when no handler is registered for the ID.
    pub handled: Option<Result<(), &'static str>>,
}

pub type HandlerSlot<H> = Option<IRQHandlerDescriptor<IRQNumber, H>>;

/// The slot index that a descriptor belongs in.
pub open spec fn slot_of<H: Copy>(d: IRQHandlerDescriptor<IRQNumber, H>) -> int {
    d.spec_number().spec_value() as int
}

/// Whether bit `b` of `word` is set.
pub open spec fn bit_of(word: u32, b: u32) -> bool {
    (word >> b) & 1u32 == 1u32
}

/// The enable-set register and bit that stand for IRQ `n`.
pub open spec fn enable_position(n: usize) -> (int, u32) {
    ((n / 32) as int, (n % 32) as u32)
}

/// What registering `d` does to a handler table: the result, and the table afterwards.
pub open spec fn register_effect<H: Copy>(
    table: Seq<HandlerSlot<H>>,
    d: IRQHandlerDescriptor<IRQNumber, H>,
) -> (Result<(), RegisterError>, Seq<HandlerSlot<H>>) {
    if table[slot_of(d)] is Some {
        (Err(RegisterError::AlreadyRegistered), table)
    } else {
        (Ok(()), table.update(slot_of(d), Some(d)))
    }
}

/// The enable-set registers after IRQ `n` is enabled: its bit is set in the register that
/// covers it.
pub open spec fn enable_effect(words: Seq<u32>, n: usize) -> Seq<u32> {
    let (i, b) = enable_position(n);
    words.update(i, words[i] | (1u32 << b))
}

proof fn lemma_or_bit(x: u32, k: u32, b: u32)
    requires
        k < 32,
        b < 32,
    ensures
        ((x | (1u32 << k)) >> b) & 1u32 == 1u32 <==> ((x >> b) & 1u32 == 1u32 || b == k),
{
    assert(((x | (1u32 << k)) >> b) & 1u32 == 1u32 <==> ((x >> b) & 1u32 == 1u32 || b == k))
        by (bit_vector)
        requires
            k < 32,
            b < 32,
    ;
}

/// For every IRQ number with an empty slot, a registration succeeds and fills the slot; a second registration for the same number then fails with
/// `AlreadyRegistered` and leaves the table as the first one made it.
pub proof fn lemma_register_handler_once<H: Copy>(
    table: Seq<HandlerSlot<H>>,
    first: IRQHandlerDescriptor<IRQNumber, H>,
    second: IRQHandlerDescriptor<IRQNumber, H>,
)
    requires
        table.len() == HANDLER_SLOTS,
        first.spec_number().spec_value() <= MAX_IRQ_NUMBER,
        slot_of(first) == slot_of(second),
        table[slot_of(first)] is None,
    ensures
        register_effect(table, first).0 is Ok,
        register_effect(table, first).1[slot_of(first)] == Some(first),
        register_effect(table, first).1.len() == HANDLER_SLOTS,
        forall|i: int| 0 <= i < HANDLER_SLOTS && i != slot_of(first) ==> register_effect(table, first).1[i] == table[i],
        register_effect(register_effect(table, first).1, second) == (
            Err::<(), RegisterError>(RegisterError::AlreadyRegistered),
            register_effect(table, first).1,
        ),
{
}

/// Enabling IRQ `n` sets exactly one bit of the enable-set registers, bit `n % 32` of register
/// `n / 32`, and leaves every other bit as it was.
pub proof fn lemma_enable_sets_one_bit(words: Seq<u32>, n: usize)
    requires
        words.len() == ENABLE_WORDS,
        n <= MAX_IRQ_NUMBER,
    ensures
        enable_effect(words, n).len() == ENABLE_WORDS,
        forall|i: int, b: u32|
            0 <= i < ENABLE_WORDS && b < 32 ==> #[trigger] bit_of(enable_effect(words, n)[i], b)
                == (bit_of(words[i], b) || (i, b) == enable_position(n)),
{
    let (k, kb) = enable_position(n);
    assert forall|i: int, b: u32|
        0 <= i < ENABLE_WORDS && b < 32 implies #[trigger] bit_of(enable_effect(words, n)[i], b)
        == (bit_of(words[i], b) || (i, b) == enable_position(n)) by {
        if i == k {
            lemma_or_bit(words[i], kb, b);
        }
    }
}

/// The GIC v2: a Distributor, a per-core CPU interface and a table of registered handlers.
/// The Distributor's enable-set registers are held here as values; writing them to the device
/// at the base addresses is the platform's work.
pub struct GICv2<H> {
    gicd_mmio_start_addr: usize,
    gicc_mmio_start_addr: usize,
    enable_set: Vec<u32>,
    handler_table: InitStateLock<Vec<HandlerSlot<H>>>,
}

impl<H: Copy + IRQHandler> GICv2<H> {
    pub const COMPATIBLE: &'static str = "GICv2 (ARM Generic Interrupt Controller v2)";

    pub closed spec fn wf(&self) -> bool {
        &&& self.enable_set@.len() == ENABLE_WORDS
        &&& self.handler_table.view()@.len() == HANDLER_SLOTS
        &&& forall|i: int|
            0 <= i < HANDLER_SLOTS && (#[trigger] self.handler_table.view()@[i]) is Some ==> slot_of(
                self.handler_table.view()@[i]->Some_0,
            ) == i
    }

    /// The handler table: slot `i` holds the descriptor registered for IRQ `i`, if any.
    pub closed spec fn handlers(&self) -> Seq<HandlerSlot<H>> {
        self.handler_table.view()@
    }

    /// The Distributor's enable-set registers.
    pub closed spec fn enable_words(&self) -> Seq<u32> {
        self.enable_set@
    }

    pub closed spec fn spec_gicd_addr(&self) -> usize {
        self.gicd_mmio_start_addr
    }

    pub closed spec fn spec_gicc_addr(&self) -> usize {
        self.gicc_mmio_start_addr
    }

    /// Create an instance for the Distributor and CPU interface at the given MMIO addresses,
    /// which the caller must have right. No handler is registered and no IRQ is enabled.
    pub fn new(gicd_mmio_start_addr: usize, gicc_mmio_start_addr: usize) -> (r: Self)
        ensures
            r.wf(),
            r.handlers().len() == HANDLER_SLOTS,
            r.enable_words().len() == ENABLE_WORDS,
            r.spec_gicd_addr() == gicd_mmio_start_addr,
            r.spec_gicc_addr() == gicc_mmio_start_addr,
            forall|i: int| 0 <= i < HANDLER_SLOTS ==> (#[trigger] r.handlers()[i]) is None,
            forall|i: int| 0 <= i < ENABLE_WORDS ==> #[trigger] r.enable_words()[i] == 0,
    {
        let mut table: Vec<HandlerSlot<H>> = Vec::new();
        let mut i: usize = 0;
        while i < HANDLER_SLOTS
            invariant
                i <= HANDLER_SLOTS,
                table@.len() == i,
                forall|j: int| 0 <= j < i ==> (#[trigger] table@[j]) is None,
            decreases HANDLER_SLOTS - i,
        {
            table.push(None);
            i = i + 1;
        }
        let mut words: Vec<u32> = Vec::new();
        let mut k: usize = 0;
        while k < ENABLE_WORDS
            invariant
                k <= ENABLE_WORDS,
                words@.len() == k,
                forall|j: int| 0 <= j < k ==> #[trigger] words@[j] == 0,
            decreases ENABLE_WORDS - k,
        {
            words.push(0);
            k = k + 1;
        }
        GICv2 {
            gicd_mmio_start_addr,
            gicc_mmio_start_addr,
            enable_set: words,
            handler_table: InitStateLock::new(table),
        }
    }

    pub fn gicd_mmio_start_addr(&self) -> (r: usize)
        ensures
            r == self.spec_gicd_addr(),
    {
        self.gicd_mmio_start_addr
    }

    pub fn gicc_mmio_start_addr(&self) -> (r: usize)
        ensures
            r == self.spec_gicc_addr(),
    {
        self.gicc_mmio_start_addr
    }

    /// The value of enable-set register `i`.
    pub fn enable_set_register(&self, i: usize) -> (r: u32)
        requires
            self.wf(),
            i < ENABLE_WORDS,
        ensures
            r == self.enable_words()[i as int],
    {
        self.enable_set[i]
    }

    /// Register a handler. Refused when its IRQ number already has one, leaving the table as it
    /// was. The table is guarded by the init-phase lock: registering is only allowed during the
    /// init phase, with IRQs masked.
    pub fn register_handler(
        &mut self,
        state: &StateManager,
        irq: &IrqMaskState,
        descriptor: IRQHandlerDescriptor<IRQNumber, H>,
    ) -> (r: Result<(), RegisterError>)
        requires
            old(self).wf(),
            state.wf(),
            may_write_init_state(state.view(), irq.spec_masked()),
        ensures
            final(self).wf(),
            final(self).handlers().len() == HANDLER_SLOTS,
            final(self).enable_words().len() == ENABLE_WORDS,
            final(self).enable_words() == old(self).enable_words(),
            (r, final(self).handlers()) == register_effect(old(self).handlers(), descriptor),
    {
        let n = descriptor.number().get();
        let written = self.handler_table.write(
            state,
            irq,
            (|table: &mut Vec<HandlerSlot<H>>| -> (ok: bool)
                requires
                    old(table)@.len() == HANDLER_SLOTS,
                ensures
                    ok == (old(table)@[n as int] is None),
                    ok ==> final(table)@ == old(table)@.update(n as int, Some(descriptor)),
                    !ok ==> final(table)@ == old(table)@,
                {
                    if table[n].is_some() {
                        false
                    } else {
                        table.set(n, Some(descriptor));
                        true
                    }
                }),
        );
        if written {
            Ok(())
        } else {
            Err(RegisterError::AlreadyRegistered)
        }
    }

    /// Enable IRQ `n` in the Distributor: set its bit in the enable-set register that covers it.
    pub fn enable(&mut self, n: &IRQNumber)
        requires
            old(self).wf(),
        ensures
            final(self).wf(),
            final(self).handlers().len() == HANDLER_SLOTS,
            final(self).enable_words().len() == ENABLE_WORDS,
            final(self).handlers() == old(self).handlers(),
            final(self).enable_words() == enable_effect(old(self).enable_words(), n.spec_value()),
    {
        let irq_num = n.get();
        let index = irq_num / 32;
        let bit: u32 = 1u32 << ((irq_num % 32) as u32);
        let current = self.enable_set[index];
        self.enable_set.set(index, current | bit);
    }

    /// The descriptor registered for IRQ number `n`, if any.
    pub fn handler_for(&self, n: usize) -> (r: HandlerSlot<H>)
        requires
            self.wf(),
        ensures
            n <= MAX_IRQ_NUMBER ==> r == self.handlers()[n as int],
            n > MAX_IRQ_NUMBER ==> r is None,
    {
        if n > MAX_IRQ_NUMBER {
            return None;
        }
        self.handler_table.read(
            (|table: &Vec<HandlerSlot<H>>| -> (s: HandlerSlot<H>)
                requires
                    n < table@.len(),
                ensures
                    s == table@[n as int],
                { table[n] }),
        )
    }

    /// The registered handlers, in order of IRQ number, as (IRQ number, name) pairs.
    pub fn registered_handlers(&self) -> (r: Vec<(usize, &'static str)>)
        requires
            self.wf(),
        ensures
            forall|k: int| 0 <= k < r@.len() ==> {
                let (n, name) = #[trigger] r@[k];
                n <= MAX_IRQ_NUMBER && self.handlers()[n as int] is Some
                    && self.handlers()[n as int]->Some_0.spec_name() == name
            },
            forall|n: int| 0 <= n < HANDLER_SLOTS && (#[trigger] self.handlers()[n]) is Some
                ==> exists|k: int| 0 <= k < r@.len() && (#[trigger] r@[k]).0 == n,
            forall|j: int, k: int| 0 <= j < k < r@.len() ==> (#[trigger] r@[j]).0 < (#[trigger] r@[k]).0,
    {
        let mut out: Vec<(usize, &'static str)> = Vec::new();
        let mut i: usize = 0;
        while i < HANDLER_SLOTS
            invariant
                self.wf(),
                i <= HANDLER_SLOTS,
                forall|k: int| 0 <= k < out@.len() ==> {
                    let (n, name) = #[trigger] out@[k];
                    n < i && self.handlers()[n as int] is Some
                        && self.handlers()[n as int]->Some_0.spec_name() == name
                },
                forall|n: int| 0 <= n < i && (#[trigger] self.handlers()[n]) is Some
                    ==> exists|k: int| 0 <= k < out@.len() && (#[trigger] out@[k]).0 == n,
                forall|j: int, k: int| 0 <= j < k < out@.len() ==> (#[trigger] out@[j]).0 < (#[trigger] out@[k]).0,
            decreases HANDLER_SLOTS - i,
        {
            let ghost before = out@;
            match self.handler_for(i) {
                Some(d) => {
                    out.push((i, d.name()));
                },
                None => {},
            }
            assert forall|n: int| 0 <= n < i + 1 && (#[trigger] self.handlers()[n]) is Some
                implies exists|k: int| 0 <= k < out@.len() && (#[trigger] out@[k]).0 == n by {
                if n < i {
                    let k = choose|k: int| 0 <= k < before.len() && (#[trigger] before[k]).0 == n;
                    assert(out@[k] == before[k]);
                } else {
                    assert(out@[out@.len() - 1].0 == n);
                }
            }
            i = i + 1;
        }
        out
    }

    /// Serve the interrupt that the CPU interface's acknowledge register reported as `iar`:
    /// run the handler registered for its ID, if any, and always name that ID for the
    /// end-of-interrupt write, whatever the handler returned.
    pub fn handle_pending_irqs(&self, ic: &IRQContext, iar: u32) -> (r: PendingIrqOutcome)
        requires
            self.wf(),
        ensures
            r.eoi == iar & INTERRUPT_ID_MASK,
            r.handled is Some <==> (r.eoi <= MAX_IRQ_NUMBER && self.handlers()[r.eoi as int] is Some),
            r.handled is Some ==> self.handlers()[r.eoi as int]->Some_0.spec_handler().may_return(
                r.handled->Some_0,
            ),
    {
        let id = iar & INTERRUPT_ID_MASK;
        let handled = match self.handler_for(id as usize) {
            Some(descriptor) => Some(descriptor.handler().handle()),
            None => None,
        };
        PendingIrqOutcome { eoi: id, handled }
    }
}

} // verus!
