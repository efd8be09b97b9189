use kernel_core::gic::{IRQNumber, RegisterError, GICv2, MAX_IRQ_NUMBER};
use kernel_core::interupts::{
    dispatch_pending_irq, exec_with_irq_masked, irq_manager, register_irq_manager, ActiveIrqManager,
    IRQHandler, IRQHandlerDescriptor, IRQManager, IrqManagerRegistry, IrqMaskState, NullIrqManager,
};
use kernel_core::locks::{IRQSafeMutex, InitStateLock, Mutex, ReadWriteEx};
use kernel_core::state::{State, StateManager};
use std::cell::Cell;

#[derive(Clone, Copy)]
struct Counting {
    calls: &'static Cell<u32>,
    fail: bool,
}

impl IRQHandler for Counting {
    fn may_return(&self, r: Result<(), &'static str>) -> bool {
        r == if self.fail { Err("device did not answer") } else { Ok(()) }
    }

    fn handle(&self) -> Result<(), &'static str> {
        self.calls.set(self.calls.get() + 1);
        if self.fail {
            Err("device did not answer")
        } else {
            Ok(())
        }
    }
}

fn counting(fail: bool) -> Counting {
    Counting { calls: Box::leak(Box::new(Cell::new(0))), fail }
}

fn irq(n: usize) -> IRQNumber {
    IRQNumber::new(n).unwrap()
}

#[test]
fn state_starts_in_init() {
    let s = StateManager::new();
    assert!(s.is_init());
    assert!(s.is_single_core());
    assert_eq!(s.state(), State::Init);
}

#[test]
fn transition_leaves_init_for_single_core_main() {
    let mut s = StateManager::new();
    assert!(s.is_init());
    s.transition_to_single_core_main();
    assert!(s.is_single_core());
    assert!(!s.is_init());
    assert_eq!(s.state(), State::SingleCoreMain);
}

#[test]
fn init_lock_writes_during_init_with_irqs_masked() {
    let s = StateManager::new();
    let masked = IrqMaskState::new(true);
    let mut lock = InitStateLock::new(5u32);
    assert_eq!(lock.read(|d: &u32| *d), 5);
    assert_eq!(lock.write(&s, &masked, |d: &mut u32| { *d = 6; 1u8 }), 1u8);
    assert_eq!(lock.read(|d: &u32| *d), 6);
    lock.write(&s, &masked, |d: &mut u32| *d += 10);
    assert_eq!(lock.read(|d: &u32| *d), 16);
}

#[test]
fn irq_safe_mutex_masks_and_restores() {
    for phase_moved in [false, true] {
        let mut s = StateManager::new();
        if phase_moved {
            s.transition_to_single_core_main();
        }
        for m in [false, true] {
            let mut irq = IrqMaskState::new(m);
            let mut mutex = IRQSafeMutex::new(vec![1u8]);
            let r = mutex.lock(&s, &mut irq, |d: &mut Vec<u8>, masked: bool| {
                assert!(masked);
                d.push(2);
                d.len()
            });
            assert_eq!(r, 2);
            assert_eq!(irq.is_local_irq_masked(), m);
            assert_eq!(mutex.lock(&s, &mut irq, |d: &mut Vec<u8>, _masked: bool| d.clone()), vec![1, 2]);
        }
    }
}

#[test]
fn exec_with_irq_masked_restores_every_mask_state() {
    for m in [false, true] {
        let mut irq = IrqMaskState::new(m);
        let seen = exec_with_irq_masked(&mut irq, |c: &mut IrqMaskState| c.is_local_irq_masked());
        assert!(seen);
        assert_eq!(irq.is_local_irq_masked(), m);
    }
}

#[test]
fn exec_with_irq_masked_nests() {
    let mut irq = IrqMaskState::new(false);
    let inner = exec_with_irq_masked(&mut irq, |c: &mut IrqMaskState| {
        let r = exec_with_irq_masked(c, |d: &mut IrqMaskState| d.is_local_irq_masked());
        (r, c.is_local_irq_masked())
    });
    assert_eq!(inner, (true, true));
    assert!(!irq.is_local_irq_masked());
}

#[test]
fn irq_number_is_bounded() {
    assert_eq!(IRQNumber::new(MAX_IRQ_NUMBER).map(|n| n.get()), Some(300));
    assert_eq!(IRQNumber::new(0).map(|n| n.get()), Some(0));
    assert!(IRQNumber::new(301).is_none());
    assert!(IRQNumber::new(1019).is_none());
}

#[test]
fn register_handler_once_per_number() {
    let s = StateManager::new();
    let masked = IrqMaskState::new(true);
    let mut gic: GICv2<Counting> = GICv2::new(0xFF84_1000, 0xFF84_2000);
    let first = IRQHandlerDescriptor::new(irq(97), "timer", counting(false));
    let second = IRQHandlerDescriptor::new(irq(97), "other", counting(false));
    assert_eq!(gic.register_handler(&s, &masked, first), Ok(()));
    assert_eq!(gic.register_handler(&s, &masked, second), Err(RegisterError::AlreadyRegistered));
    assert_eq!(gic.handler_for(97).map(|d| d.name()), Some("timer"));
    assert_eq!(gic.registered_handlers(), vec![(97, "timer")]);
    let third = IRQHandlerDescriptor::new(irq(300), "last", counting(false));
    assert_eq!(gic.register_handler(&s, &masked, third), Ok(()));
    assert_eq!(gic.registered_handlers(), vec![(97, "timer"), (300, "last")]);
}

#[test]
fn enable_sets_one_bit() {
    let mut gic: GICv2<Counting> = GICv2::new(0, 0);
    gic.enable(&irq(37));
    for i in 0..10 {
        let expected = if i == 1 { 1u32 << 5 } else { 0 };
        assert_eq!(gic.enable_set_register(i), expected);
    }
    gic.enable(&irq(300));
    assert_eq!(gic.enable_set_register(9), 1u32 << 12);
    assert_eq!(gic.enable_set_register(1), 1u32 << 5);
    gic.enable(&irq(37));
    assert_eq!(gic.enable_set_register(1), 1u32 << 5);
    gic.enable(&irq(0));
    assert_eq!(gic.enable_set_register(0), 1);
}

#[test]
fn pending_irq_runs_its_handler_once_and_acknowledges() {
    let s = StateManager::new();
    let masked = IrqMaskState::new(true);
    let h = counting(false);
    let mut gic: GICv2<Counting> = GICv2::new(0, 0);
    gic.register_handler(&s, &masked, IRQHandlerDescriptor::new(irq(97), "timer", h)).unwrap();
    let mut registry = IrqManagerRegistry::new();
    register_irq_manager(&mut registry, &s, &masked, gic);
    let out = dispatch_pending_irq(irq_manager(&registry), 97);
    assert_eq!(out.eoi, 97);
    assert_eq!(out.handled, Some(Ok(())));
    assert_eq!(h.calls.get(), 1);
}

#[test]
fn failing_handler_is_still_acknowledged() {
    let s = StateManager::new();
    let masked = IrqMaskState::new(true);
    let h = counting(true);
    let mut gic: GICv2<Counting> = GICv2::new(0, 0);
    gic.register_handler(&s, &masked, IRQHandlerDescriptor::new(irq(30), "dma", h)).unwrap();
    let mut registry = IrqManagerRegistry::new();
    register_irq_manager(&mut registry, &s, &masked, gic);
    let out = dispatch_pending_irq(irq_manager(&registry), 0x1c00 | 30);
    assert_eq!(out.eoi, 30);
    assert_eq!(out.handled, Some(Err("device did not answer")));
    assert_eq!(h.calls.get(), 1);
}

#[test]
fn unregistered_or_spurious_irq_runs_nothing() {
    let s = StateManager::new();
    let masked = IrqMaskState::new(true);
    let gic: GICv2<Counting> = GICv2::new(0, 0);
    let mut registry = IrqManagerRegistry::new();
    register_irq_manager(&mut registry, &s, &masked, gic);
    let out = dispatch_pending_irq(irq_manager(&registry), 12);
    assert_eq!(out.eoi, 12);
    assert!(out.handled.is_none());
    let spurious = dispatch_pending_irq(irq_manager(&registry), 1023);
    assert_eq!(spurious.eoi, 1023);
    assert!(spurious.handled.is_none());
}

#[test]
fn registry_starts_null_and_is_replaced_during_init() {
    let s = StateManager::new();
    let masked = IrqMaskState::new(true);
    let mut registry: IrqManagerRegistry<GICv2<Counting>> = IrqManagerRegistry::new();
    assert!(matches!(irq_manager(&registry), ActiveIrqManager::Null(_)));
    let out = dispatch_pending_irq(irq_manager(&registry), 40);
    assert_eq!(out.eoi, 40);
    assert!(out.handled.is_none());
    register_irq_manager(&mut registry, &s, &masked, GICv2::new(1, 2));
    match irq_manager(&registry) {
        ActiveIrqManager::Registered(g) => {
            assert_eq!(g.gicd_mmio_start_addr(), 1);
            assert_eq!(g.gicc_mmio_start_addr(), 2);
        }
        ActiveIrqManager::Null(_) => panic!("manager not registered"),
    }
}

#[test]
fn descriptor_getters() {
    let h = counting(false);
    let d = IRQHandlerDescriptor::new(7u32, "gpio", h);
    assert_eq!(d.number(), 7);
    assert_eq!(d.name(), "gpio");
    assert_eq!(d.handler().handle(), Ok(()));
    assert_eq!(h.calls.get(), 1);
}

#[test]
fn managers_through_the_trait() {
    let s = StateManager::new();
    let masked = IrqMaskState::new(true);
    let d = IRQHandlerDescriptor::new(irq(3), "uart", counting(false));
    let mut null = NullIrqManager;
    assert_eq!(
        IRQManager::<Counting>::register_handler(&mut null, &s, &masked, d),
        Err(RegisterError::NoManager)
    );
    assert!(IRQManager::<Counting>::print_handler(&null).is_empty());
    let mut gic: GICv2<Counting> = GICv2::new(0, 0);
    assert_eq!(IRQManager::register_handler(&mut gic, &s, &masked, d), Ok(()));
    assert_eq!(
        IRQManager::register_handler(&mut gic, &s, &masked, d),
        Err(RegisterError::AlreadyRegistered)
    );
    IRQManager::<Counting>::enable(&mut gic, &irq(3));
    assert_eq!(gic.enable_set_register(0), 1 << 3);
    assert_eq!(IRQManager::<Counting>::print_handler(&gic), vec![(3, "uart")]);
}
