use kernel_core::exception::{
    current_elx_synchronous, current_privilege_level, handle_exception, EsrEL2, ExceptionContext,
    ExceptionVector, FatalTrap, PrivilegeLevel, SpsrEL2, TrapOutcome, FAULT_SENTINEL_ADDRESS,
};

const DATA_ABORT_CURRENT_EL: u64 = 0x25 << 26;

fn context(esr: u64) -> ExceptionContext {
    let mut gpr = [0u64; 30];
    for (i, r) in gpr.iter_mut().enumerate() {
        *r = i as u64 * 0x1111;
    }
    ExceptionContext {
        gpr,
        lr: 0xdead_beef,
        elr_el2: 0x8_0000,
        spsr_el2: SpsrEL2 { raw: 0x3c5 },
        esr_el2: EsrEL2 { raw: esr },
    }
}

fn text(b: Vec<u8>) -> String {
    String::from_utf8(b).unwrap()
}

#[test]
fn sentinel_data_abort_resumes_one_instruction_later() {
    assert_eq!(FAULT_SENTINEL_ADDRESS, 8 * 1024 * 1024 * 1024);
    let mut e = context(DATA_ABORT_CURRENT_EL | 0x45);
    let r = current_elx_synchronous(&mut e, Some(FAULT_SENTINEL_ADDRESS));
    assert_eq!(r, TrapOutcome::Resume);
    assert_eq!(e.elr_el2, 0x8_0004);
    assert_eq!(e.lr, 0xdead_beef);
}

#[test]
fn every_fault_address_class_at_the_sentinel_resumes() {
    for ec in [0x20u64, 0x21, 0x22, 0x24, 0x25, 0x34, 0x35] {
        let mut e = context(ec << 26);
        let r = handle_exception(ExceptionVector::CurrentElxSynchronous, &mut e, Some(FAULT_SENTINEL_ADDRESS));
        assert_eq!(r, TrapOutcome::Resume);
        assert_eq!(e.elr_el2, 0x8_0004);
    }
}

#[test]
fn other_address_or_class_is_fatal() {
    let mut e = context(DATA_ABORT_CURRENT_EL);
    let r = handle_exception(ExceptionVector::CurrentElxSynchronous, &mut e, Some(FAULT_SENTINEL_ADDRESS + 4));
    assert_eq!(r, TrapOutcome::Fatal(FatalTrap::Unhandled));
    assert_eq!(e.elr_el2, 0x8_0000);
    let mut svc = context(0x15 << 26);
    let r = handle_exception(ExceptionVector::CurrentElxSynchronous, &mut svc, Some(FAULT_SENTINEL_ADDRESS));
    assert_eq!(r, TrapOutcome::Fatal(FatalTrap::Unhandled));
    assert_eq!(svc.elr_el2, 0x8_0000);
    let mut no_far = context(DATA_ABORT_CURRENT_EL);
    assert_eq!(current_elx_synchronous(&mut no_far, None), TrapOutcome::Fatal(FatalTrap::Unhandled));
}

#[test]
fn other_vectors_are_fatal() {
    let user = [
        ExceptionVector::CurrentEl0Synchronous,
        ExceptionVector::CurrentEl0Irq,
        ExceptionVector::CurrentEl0Serror,
    ];
    for v in user {
        let mut e = context(DATA_ABORT_CURRENT_EL);
        assert_eq!(handle_exception(v, &mut e, Some(FAULT_SENTINEL_ADDRESS)), TrapOutcome::Fatal(FatalTrap::UserStackOrigin));
        assert_eq!(e.elr_el2, 0x8_0000);
    }
    let others = [
        ExceptionVector::CurrentElxIrq,
        ExceptionVector::CurrentElxSerror,
        ExceptionVector::LowerAarch64Synchronous,
        ExceptionVector::LowerAarch64Irq,
        ExceptionVector::LowerAarch64Serror,
        ExceptionVector::LowerAarch32Synchronous,
        ExceptionVector::LowerAarch32Irq,
        ExceptionVector::LowerAarch32Serror,
    ];
    for v in others {
        let mut e = context(DATA_ABORT_CURRENT_EL);
        assert_eq!(handle_exception(v, &mut e, Some(FAULT_SENTINEL_ADDRESS)), TrapOutcome::Fatal(FatalTrap::Unhandled));
        assert_eq!(e.elr_el2, 0x8_0000);
    }
}

#[test]
fn resume_wraps_at_the_top_of_memory() {
    let mut e = context(DATA_ABORT_CURRENT_EL);
    e.elr_el2 = u64::MAX - 1;
    assert_eq!(current_elx_synchronous(&mut e, Some(FAULT_SENTINEL_ADDRESS)), TrapOutcome::Resume);
    assert_eq!(e.elr_el2, 2);
}

#[test]
fn syndrome_fields() {
    let e = EsrEL2 { raw: 0x9600_0045 };
    assert_eq!(e.exception_class(), 0x25);
    assert_eq!(e.iss(), 0x45);
    let big = EsrEL2 { raw: 0x1f_ffff_ffff };
    assert_eq!(big.exception_class(), 0x3f);
    assert_eq!(big.iss(), 0x1ff_ffff);
    assert!(context(0x9600_0045).fault_address_valid());
    assert!(!context(0x5600_0000).fault_address_valid());
}

#[test]
fn status_flags() {
    let s = SpsrEL2 { raw: 0x8000_03c5 };
    assert!(s.is_set(31));
    assert!(!s.is_set(30));
    assert!(s.is_set(9));
    assert!(s.is_set(6));
    assert!(!s.is_set(20));
}

#[test]
fn status_text() {
    let low = text(SpsrEL2 { raw: 0x3c5 }.to_text());
    assert!(low.starts_with("SPSR_EL2: 0x000003c5\n"));
    let s = SpsrEL2 { raw: 0x6000_03c5 };
    let expected = [
        "SPSR_EL2: 0x600003c5",
        "      Flags:",
        "            Negative (N): Not set",
        "            Zero     (Z): Set",
        "            Carry    (C): Set",
        "            Overflow (V): Not set",
        "      Exception handling state:",
        "            Debug  (D): Masked",
        "            SError (A): Masked",
        "            IRQ    (I): Masked",
        "            FIQ    (F): Masked",
        "      Illegal Execution State (IL): Not set",
    ]
    .join("\n");
    assert_eq!(text(s.to_text()), expected);
}

#[test]
fn status_text_lines() {
    let t = text(SpsrEL2 { raw: 0x0010_0000 }.to_text());
    let lines: Vec<&str> = t.lines().collect();
    assert_eq!(lines[0], "SPSR_EL2: 0x00100000");
    assert_eq!(lines[1], "      Flags:");
    assert_eq!(lines[2], "            Negative (N): Not set");
    assert_eq!(lines[7], "            Debug  (D): Unmasked");
    assert_eq!(lines[11], "      Illegal Execution State (IL): Set");
    assert_eq!(lines.len(), 12);
}

#[test]
fn syndrome_text() {
    let t = text(EsrEL2 { raw: 0x9600_0045 }.to_text());
    assert_eq!(
        t,
        "ESR_EL2: 0x96000045\n      Exception Class         (EC) : 0x25 - Data Abort, current EL\n      Instr Specific Syndrome (ISS): 0x45"
    );
    let other = text(EsrEL2 { raw: 0x5600_0000 }.to_text());
    assert!(other.contains("(EC) : 0x15 - N/A\n"));
    assert_eq!(
        text(EsrEL2 { raw: 0x9600_0004 }.to_text()),
        "ESR_EL2: 0x96000004\n      Exception Class         (EC) : 0x25 - Data Abort, current EL\n      Instr Specific Syndrome (ISS): 0x4"
    );
    let wide = text(EsrEL2 { raw: 0x1f_0000_0000 }.to_text());
    assert!(wide.starts_with("ESR_EL2: 0x1f00000000\n      Exception Class         (EC) : 0x0 - N/A\n"));
    assert!(wide.ends_with("(ISS): 0x0"));
}

#[test]
fn formatting_twice_gives_the_same_text() {
    for raw in [0u64, 0x3c5, 0x9600_0045, u64::MAX] {
        assert_eq!(SpsrEL2 { raw }.to_text(), SpsrEL2 { raw }.to_text());
        assert_eq!(EsrEL2 { raw }.to_text(), EsrEL2 { raw }.to_text());
    }
    assert_ne!(SpsrEL2 { raw: 1 }.to_text(), SpsrEL2 { raw: 2 }.to_text());
    assert_ne!(EsrEL2 { raw: 1 }.to_text(), EsrEL2 { raw: 2 }.to_text());
}

#[test]
fn report_of_a_data_abort() {
    let e = context(0x9600_0045);
    let t = text(e.report(Some(0x2_0000_0000)));
    assert!(t.starts_with("CPU Exception!\n\nESR_EL2: 0x96000045\n"));
    assert!(t.contains("\nFAR_EL2: 0x0000000200000000\nSPSR_EL2: 0x000003c5\n"));
    assert!(t.contains("\nELR_EL2: 0x0000000000080000\n\nGeneral purpose register:\n"));
    assert!(t.contains("      x0 : 0x0000000000000000         x1 : 0x0000000000001111\n"));
    assert!(t.contains("      x28: 0x000000000001dddc         x29: 0x000000000001eeed\n"));
    assert!(t.ends_with("      lr : 0x00000000deadbeef"));
    let no_far = text(context(0x5600_0000).report(Some(0x2_0000_0000)));
    assert!(!no_far.contains("FAR_EL2"));
    let unread = text(e.report(None));
    assert!(!unread.contains("FAR_EL2"));
}

#[test]
fn privilege_levels() {
    assert_eq!(current_privilege_level(0b1000), (PrivilegeLevel::Hypervisor, "EL2"));
    assert_eq!(current_privilege_level(0b0100), (PrivilegeLevel::Kernel, "EL1"));
    assert_eq!(current_privilege_level(0), (PrivilegeLevel::User, "EL0"));
    assert_eq!(current_privilege_level(0b1100), (PrivilegeLevel::Unknown, "Unknown"));
    assert_eq!(current_privilege_level(0b1011), (PrivilegeLevel::Hypervisor, "EL2"));
}
