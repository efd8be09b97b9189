use vstd::prelude::*;
use aarch64_cpu::registers::{CurrentEL, ESR_EL2, SPSR_EL2};
use tock_registers::fields::Field;
use tock_registers::interfaces::Readable;
use tock_registers::registers::InMemoryRegister;
use crate::text::{
    bytes_of, hex_digits, hex_min_text, hex_text, hex_width, lemma_below_pow16_width,
    lemma_hex_digits_injective, lemma_hex_digits_no_newline, lemma_hex_text_len,
    lemma_pow16_monotonic, max_nat, push_hex, push_hex_min, push_str,
};

verus! {

/// The one fault address whose synchronous faults the kernel resolves: 8 GiB.
pub const FAULT_SENTINEL_ADDRESS: u64 = 8 * 1024 * 1024 * 1024;

/// Width in bytes of one A64 instruction.
pub const INSTRUCTION_WIDTH: u64 = 4;

/// Bit positions of the saved processor status fields.
pub const SPSR_N: u64 = 31;
pub const SPSR_Z: u64 = 30;
pub const SPSR_C: u64 = 29;
pub const SPSR_V: u64 = 28;
pub const SPSR_IL: u64 = 20;
pub const SPSR_D: u64 = 9;
pub const SPSR_A: u64 = 8;
pub const SPSR_I: u64 = 7;
pub const SPSR_F: u64 = 6;

/// Exception class values whose syndrome comes with a valid fault address.
pub const EC_INSTR_ABORT_LOWER_EL: u64 = 0x20;
pub const EC_INSTR_ABORT_CURRENT_EL: u64 = 0x21;
pub const EC_PC_ALIGNMENT_FAULT: u64 = 0x22;
pub const EC_DATA_ABORT_LOWER_EL: u64 = 0x24;
pub const EC_DATA_ABORT_CURRENT_EL: u64 = 0x25;
pub const EC_WATCHPOINT_LOWER_EL: u64 = 0x34;
pub const EC_WATCHPOINT_CURRENT_EL: u64 = 0x35;

/// Relies on tock-registers' `Readable::read` with aarch64-cpu's `ESR_EL2::EC` field: bits 26 to
/// 31 of the syndrome.
#[verifier::external_body]
fn esr_ec_field(raw: u64) -> (r: u64)
    ensures
        r == (raw >> 26u64) & 0x3fu64,
{
    InMemoryRegister::<u64, ESR_EL2::Register>::new(raw).read(ESR_EL2::EC)
}

/// Relies on tock-registers' `Readable::read` with aarch64-cpu's `ESR_EL2::ISS` field: bits 0 to
/// 24 of the syndrome.
#[verifier::external_body]
fn esr_iss_field(raw: u64) -> (r: u64)
    ensures
        r == raw & 0x1ff_ffffu64,
{
    InMemoryRegister::<u64, ESR_EL2::Register>::new(raw).read(ESR_EL2::ISS)
}

/// Relies on tock-registers' `Readable::is_set` for a one-bit field of `SPSR_EL2` at `shift`:
/// whether that bit is set.
#[verifier::external_body]
fn spsr_bit_is_set(raw: u64, shift: u64) -> (r: bool)
    requires
        shift < 64,
    ensures
        r == ((raw >> shift) & 1u64 == 1u64),
{
    InMemoryRegister::<u64, SPSR_EL2::Register>::new(raw)
        .is_set(Field::<u64, SPSR_EL2::Register>::new(1, shift as usize))
}

/// Relies on tock-registers' `Readable::read` with aarch64-cpu's `CurrentEL::EL` field: bits 2
/// and 3 of the register.
#[verifier::external_body]
fn current_el_field(raw: u64) -> (r: u64)
    ensures
        r == (raw >> 2u64) & 3u64,
{
    InMemoryRegister::<u64, CurrentEL::Register>::new(raw).read(CurrentEL::EL)
}

pub open spec fn spec_ec(raw: u64) -> u64 {
    (raw >> 26u64) & 0x3fu64
}

pub open spec fn spec_iss(raw: u64) -> u64 {
    raw & 0x1ff_ffffu64
}

pub open spec fn spec_bit(raw: u64, shift: u64) -> bool {
    (raw >> shift) & 1u64 == 1u64
}

/// The exception classes that come with a valid fault address: instruction abort, data abort,
/// PC alignment fault and watchpoint, from the current or a lower level.
pub open spec fn fault_address_valid_class(ec: u64) -> bool {
    ec == EC_INSTR_ABORT_LOWER_EL || ec == EC_INSTR_ABORT_CURRENT_EL || ec == EC_PC_ALIGNMENT_FAULT
        || ec == EC_DATA_ABORT_LOWER_EL || ec == EC_DATA_ABORT_CURRENT_EL || ec
        == EC_WATCHPOINT_LOWER_EL || ec == EC_WATCHPOINT_CURRENT_EL
}

/// Memory copy of the saved program status register.
#[derive(Clone, Copy, PartialEq, Eq, Structural)]
pub struct SpsrEL2 {
    pub raw: u64,
}

/// Memory copy of the exception syndrome register.
#[derive(Clone, Copy, PartialEq, Eq, Structural)]
pub struct EsrEL2 {
    pub raw: u64,
}

impl SpsrEL2 {
    /// Whether the status bit at `shift` is set.
    pub fn is_set(&self, shift: u64) -> (r: bool)
        requires
            shift < 64,
        ensures
            r == spec_bit(self.raw, shift),
    {
        spsr_bit_is_set(self.raw, shift)
    }
}

impl EsrEL2 {
    /// The exception class field.
    pub fn exception_class(&self) -> (r: u64)
        ensures
            r == spec_ec(self.raw),
    {
        esr_ec_field(self.raw)
    }

    /// The instruction specific syndrome field.
    pub fn iss(&self) -> (r: u64)
        ensures
            r == spec_iss(self.raw),
    {
        esr_iss_field(self.raw)
    }
}

/// The exception context as it is stored on the stack on exception entry.
pub struct ExceptionContext {
    /// General purpose registers x0 to x29.
    pub gpr: [u64; 30],
    /// The link register, x30.
    pub lr: u64,
    /// Exception link register: the program counter at the time the exception happened.
    pub elr_el2: u64,
    /// Saved program status.
    pub spsr_el2: SpsrEL2,
    /// Exception syndrome.
    pub esr_el2: EsrEL2,
}

impl ExceptionContext {
    /// The exception class of the syndrome.
    pub fn exception_class(&self) -> (r: u64)
        ensures
            r == spec_ec(self.esr_el2.raw),
    {
        self.esr_el2.exception_class()
    }

    /// Whether the fault address register holds the address that caused this exception.
    pub fn fault_address_valid(&self) -> (r: bool)
        ensures
            r == fault_address_valid_class(spec_ec(self.esr_el2.raw)),
    {
        let ec = self.exception_class();
        ec == EC_INSTR_ABORT_LOWER_EL || ec == EC_INSTR_ABORT_CURRENT_EL || ec
            == EC_PC_ALIGNMENT_FAULT || ec == EC_DATA_ABORT_LOWER_EL || ec
            == EC_DATA_ABORT_CURRENT_EL || ec == EC_WATCHPOINT_LOWER_EL || ec
            == EC_WATCHPOINT_CURRENT_EL
    }
}

/// The twelve entries of the exception vector table: the origin of the trap and its kind.
#[derive(Debug, Clone, Copy, PartialEq, Eq, Structural)]
pub enum ExceptionVector {
    CurrentEl0Synchronous,
    CurrentEl0Irq,
    CurrentEl0Serror,
    CurrentElxSynchronous,
    CurrentElxIrq,
    CurrentElxSerror,
    LowerAarch64Synchronous,
    LowerAarch64Irq,
    LowerAarch64Serror,
    LowerAarch32Synchronous,
    LowerAarch32Irq,
    LowerAarch32Serror,
}

/// Why a trap cannot be resumed.
#[derive(Debug, Clone, Copy, PartialEq, Eq, Structural)]
pub enum FatalTrap {
    /// A trap taken while running on the user-level stack pointer, which this kernel never uses.
    UserStackOrigin,
    /// Any other trap that no handler resolves.
    Unhandled,
}

/// What the exception vector does after its handler ran.
#[derive(Debug, Clone, Copy, PartialEq, Eq, Structural)]
pub enum TrapOutcome {
    /// Return from the exception, to the (possibly updated) exception link register.
    Resume,
    /// Report the context and halt.
    Fatal(FatalTrap),
}

/// Whether a synchronous fault at the current level is the one the kernel resolves.
pub open spec fn resolvable_fault(esr: u64, far: Option<u64>) -> bool {
    fault_address_valid_class(spec_ec(esr)) && far == Some(FAULT_SENTINEL_ADDRESS)
}

/// What the handler of `vector` decides for a context with syndrome `esr`, given the fault
/// address when the syndrome says it is valid.
pub open spec fn trap_outcome(vector: ExceptionVector, esr: u64, far: Option<u64>) -> TrapOutcome {
    match vector {
        ExceptionVector::CurrentEl0Synchronous | ExceptionVector::CurrentEl0Irq
        | ExceptionVector::CurrentEl0Serror => TrapOutcome::Fatal(FatalTrap::UserStackOrigin),
        ExceptionVector::CurrentElxSynchronous => if resolvable_fault(esr, far) {
            TrapOutcome::Resume
        } else {
            TrapOutcome::Fatal(FatalTrap::Unhandled)
        },
        _ => TrapOutcome::Fatal(FatalTrap::Unhandled),
    }
}

/// Handler of synchronous exceptions taken at the current level. A fault with a valid fault
/// address at the sentinel address is resolved by stepping over the faulting instruction; every
/// other one is fatal and leaves the context as it was.
pub fn current_elx_synchronous(e: &mut ExceptionContext, far: Option<u64>) -> (r: TrapOutcome)
    ensures
        r == trap_outcome(ExceptionVector::CurrentElxSynchronous, old(e).esr_el2.raw, far),
        r is Resume ==> final(e).elr_el2 == old(e).elr_el2.wrapping_add(INSTRUCTION_WIDTH),
        r is Resume ==> final(e).gpr == old(e).gpr && final(e).lr == old(e).lr
            && final(e).spsr_el2 == old(e).spsr_el2 && final(e).esr_el2 == old(e).esr_el2,
        r is Fatal ==> *final(e) == *old(e),
{
    if e.fault_address_valid() {
        match far {
            Some(addr) => {
                if addr == FAULT_SENTINEL_ADDRESS {
                    e.elr_el2 = e.elr_el2.wrapping_add(INSTRUCTION_WIDTH);
                    return TrapOutcome::Resume;
                }
            },
            None => {},
        }
    }
    TrapOutcome::Fatal(FatalTrap::Unhandled)
}

/// Route a trap to the handler of its vector entry. `far` is the fault address register, read
/// only when the syndrome says it is valid.
pub fn handle_exception(vector: ExceptionVector, e: &mut ExceptionContext, far: Option<u64>) -> (r:
    TrapOutcome)
    ensures
        r == trap_outcome(vector, old(e).esr_el2.raw, far),
        r is Resume ==> final(e).elr_el2 == old(e).elr_el2.wrapping_add(INSTRUCTION_WIDTH),
        r is Resume ==> final(e).gpr == old(e).gpr && final(e).lr == old(e).lr
            && final(e).spsr_el2 == old(e).spsr_el2 && final(e).esr_el2 == old(e).esr_el2,
        r is Fatal ==> *final(e) == *old(e),
{
    match vector {
        ExceptionVector::CurrentEl0Synchronous | ExceptionVector::CurrentEl0Irq
        | ExceptionVector::CurrentEl0Serror => TrapOutcome::Fatal(FatalTrap::UserStackOrigin),
        ExceptionVector::CurrentElxSynchronous => current_elx_synchronous(e, far),
        _ => TrapOutcome::Fatal(FatalTrap::Unhandled),
    }
}

/// Kernel privilege levels.
#[derive(Debug, Clone, Copy, PartialEq, Eq, Structural)]
pub enum PrivilegeLevel {
    User,
    Kernel,
    Hypervisor,
    Unknown,
}

pub open spec fn privilege_of(el: u64) -> (PrivilegeLevel, &'static str) {
    if el == 2 {
        (PrivilegeLevel::Hypervisor, "EL2")
    } else if el == 1 {
        (PrivilegeLevel::Kernel, "EL1")
    } else if el == 0 {
        (PrivilegeLevel::User, "EL0")
    } else {
        (PrivilegeLevel::Unknown, "Unknown")
    }
}

/// The privilege level that a value of the current exception level register stands for, with
/// its name.
pub fn current_privilege_level(current_el: u64) -> (r: (PrivilegeLevel, &'static str))
    ensures
        r == privilege_of((current_el >> 2u64) & 3u64),
{
    let el = current_el_field(current_el);
    if el == 2 {
        (PrivilegeLevel::Hypervisor, "EL2")
    } else if el == 1 {
        (PrivilegeLevel::Kernel, "EL1")
    } else if el == 0 {
        (PrivilegeLevel::User, "EL0")
    } else {
        (PrivilegeLevel::Unknown, "Unknown")
    }
}

pub open spec fn flag_word(set: bool) -> Seq<u8> {
    if set {
        bytes_of("Set")
    } else {
        bytes_of("Not set")
    }
}

pub open spec fn mask_word(set: bool) -> Seq<u8> {
    if set {
        bytes_of("Masked")
    } else {
        bytes_of("Unmasked")
    }
}

/// A labelled condition flag line.
pub open spec fn flag_line(label: &str, set: bool) -> Seq<u8> {
    bytes_of(label) + flag_word(set) + bytes_of("\n")
}

/// A labelled exception mask line.
pub open spec fn mask_line(label: &str, set: bool) -> Seq<u8> {
    bytes_of(label) + mask_word(set) + bytes_of("\n")
}

/// The condition flag lines of a saved program status value.
pub open spec fn spsr_flags_text(raw: u64) -> Seq<u8> {
    bytes_of("      Flags:\n")
        + flag_line("            Negative (N): ", spec_bit(raw, SPSR_N))
        + flag_line("            Zero     (Z): ", spec_bit(raw, SPSR_Z))
        + flag_line("            Carry    (C): ", spec_bit(raw, SPSR_C))
        + flag_line("            Overflow (V): ", spec_bit(raw, SPSR_V))
}

/// The exception mask lines of a saved program status value.
pub open spec fn spsr_masks_text(raw: u64) -> Seq<u8> {
    bytes_of("      Exception handling state:\n")
        + mask_line("            Debug  (D): ", spec_bit(raw, SPSR_D))
        + mask_line("            SError (A): ", spec_bit(raw, SPSR_A))
        + mask_line("            IRQ    (I): ", spec_bit(raw, SPSR_I))
        + mask_line("            FIQ    (F): ", spec_bit(raw, SPSR_F))
}

/// Everything after the raw value in the readable form of a saved program status value.
pub open spec fn spsr_details_text(raw: u64) -> Seq<u8> {
    seq![10u8] + spsr_flags_text(raw) + spsr_masks_text(raw) + (bytes_of(
        "      Illegal Execution State (IL): ",
    ) + flag_word(spec_bit(raw, SPSR_IL)))
}

/// The readable form of a saved program status value.
pub open spec fn spsr_text(raw: u64) -> Seq<u8> {
    bytes_of("SPSR_EL2: ") + hex_min_text(raw as nat, 8) + spsr_details_text(raw)
}

/// The symbolic name of an exception class, where this kernel knows it.
pub open spec fn ec_name(ec: u64) -> &'static str {
    if ec == EC_DATA_ABORT_CURRENT_EL {
        "Data Abort, current EL"
    } else {
        "N/A"
    }
}

/// Everything after the raw value in the readable form of a syndrome value.
pub open spec fn esr_details_text(raw: u64) -> Seq<u8> {
    seq![10u8] + (bytes_of("      Exception Class         (EC) : ") + hex_min_text(
        spec_ec(raw) as nat,
        1,
    ) + bytes_of(" - ") + bytes_of(ec_name(spec_ec(raw))) + bytes_of("\n")) + (bytes_of(
        "      Instr Specific Syndrome (ISS): ",
    ) + hex_min_text(spec_iss(raw) as nat, 1))
}

/// The readable form of a syndrome value.
pub open spec fn esr_text(raw: u64) -> Seq<u8> {
    bytes_of("ESR_EL2: ") + hex_min_text(raw as nat, 8) + esr_details_text(raw)
}

fn push_flag(out: &mut Vec<u8>, label: &str, set: bool)
    ensures
        final(out)@ == old(out)@ + flag_line(label, set),
{
    let ghost start = out@;
    push_str(out, label);
    if set {
        push_str(out, "Set");
    } else {
        push_str(out, "Not set");
    }
    push_str(out, "\n");
    assert(out@ =~= start + flag_line(label, set));
}

fn push_mask(out: &mut Vec<u8>, label: &str, set: bool)
    ensures
        final(out)@ == old(out)@ + mask_line(label, set),
{
    let ghost start = out@;
    push_str(out, label);
    if set {
        push_str(out, "Masked");
    } else {
        push_str(out, "Unmasked");
    }
    push_str(out, "\n");
    assert(out@ =~= start + mask_line(label, set));
}

impl SpsrEL2 {
    fn write_flags(&self, out: &mut Vec<u8>)
        ensures
            final(out)@ == old(out)@ + spsr_flags_text(self.raw),
    {
        let ghost start = out@;
        push_str(out, "      Flags:\n");
        push_flag(out, "            Negative (N): ", self.is_set(SPSR_N));
        push_flag(out, "            Zero     (Z): ", self.is_set(SPSR_Z));
        push_flag(out, "            Carry    (C): ", self.is_set(SPSR_C));
        push_flag(out, "            Overflow (V): ", self.is_set(SPSR_V));
        assert(out@ =~= start + spsr_flags_text(self.raw));
    }

    fn write_masks(&self, out: &mut Vec<u8>)
        ensures
            final(out)@ == old(out)@ + spsr_masks_text(self.raw),
    {
        let ghost start = out@;
        push_str(out, "      Exception handling state:\n");
        push_mask(out, "            Debug  (D): ", self.is_set(SPSR_D));
        push_mask(out, "            SError (A): ", self.is_set(SPSR_A));
        push_mask(out, "            IRQ    (I): ", self.is_set(SPSR_I));
        push_mask(out, "            FIQ    (F): ", self.is_set(SPSR_F));
        assert(out@ =~= start + spsr_masks_text(self.raw));
    }

    /// Append the readable form of the status.
    pub fn write_text(&self, out: &mut Vec<u8>)
        ensures
            final(out)@ == old(out)@ + spsr_text(self.raw),
    {
        let ghost start = out@;
        push_str(out, "SPSR_EL2: ");
        push_hex_min(out, self.raw, 8);
        let ghost head = out@;
        out.push(10u8);
        self.write_flags(out);
        self.write_masks(out);
        push_str(out, "      Illegal Execution State (IL): ");
        if self.is_set(SPSR_IL) {
            push_str(out, "Set");
        } else {
            push_str(out, "Not set");
        }
        assert(out@ =~= head + spsr_details_text(self.raw));
        assert(out@ =~= start + spsr_text(self.raw));
    }

    /// The readable form of the status.
    pub fn to_text(&self) -> (r: Vec<u8>)
        ensures
            r@ == spsr_text(self.raw),
    {
        let mut out: Vec<u8> = Vec::new();
        self.write_text(&mut out);
        assert(out@ =~= spsr_text(self.raw));
        out
    }
}

impl EsrEL2 {
    /// Append the readable form of the syndrome.
    pub fn write_text(&self, out: &mut Vec<u8>)
        ensures
            final(out)@ == old(out)@ + esr_text(self.raw),
    {
        let ghost start = out@;
        push_str(out, "ESR_EL2: ");
        push_hex_min(out, self.raw, 8);
        let ghost head = out@;
        out.push(10u8);
        push_str(out, "      Exception Class         (EC) : ");
        let ec = self.exception_class();
        push_hex_min(out, ec, 1);
        push_str(out, " - ");
        if ec == EC_DATA_ABORT_CURRENT_EL {
            push_str(out, "Data Abort, current EL");
        } else {
            push_str(out, "N/A");
        }
        push_str(out, "\n");
        push_str(out, "      Instr Specific Syndrome (ISS): ");
        push_hex_min(out, self.iss(), 1);
        assert(out@ =~= head + esr_details_text(self.raw));
        assert(out@ =~= start + esr_text(self.raw));
    }

    /// The readable form of the syndrome.
    pub fn to_text(&self) -> (r: Vec<u8>)
        ensures
            r@ == esr_text(self.raw),
    {
        let mut out: Vec<u8> = Vec::new();
        self.write_text(&mut out);
        assert(out@ =~= esr_text(self.raw));
        out
    }
}

/// A header, a hex number of at least eight digits and a text that starts with a line feed:
/// the whole determines the number.
proof fn lemma_hex_field_injective(h: Seq<u8>, a: u64, b: u64, ta: Seq<u8>, tb: Seq<u8>)
    requires
        ta.len() > 0 && ta[0] == 10u8,
        tb.len() > 0 && tb[0] == 10u8,
        h + hex_min_text(a as nat, 8) + ta == h + hex_min_text(b as nat, 8) + tb,
    ensures
        a == b,
{
    let wa: nat = max_nat(8, hex_width(a as nat));
    let wb: nat = max_nat(8, hex_width(b as nat));
    let xa = hex_min_text(a as nat, 8);
    let xb = hex_min_text(b as nat, 8);
    let t = h + xa + ta;
    lemma_hex_text_len(a as nat, wa);
    lemma_hex_text_len(b as nat, wb);
    lemma_hex_digits_no_newline(a as nat, wa);
    lemma_hex_digits_no_newline(b as nat, wb);
    if wa < wb {
        let i: int = h.len() as int + xa.len() as int;
        assert(t[i] == ta[0]);
        assert((h + xb + tb)[i] == xb[xa.len() as int]);
        assert(xb[xa.len() as int] == hex_digits(b as nat, wb)[wa as int]);
    } else if wb < wa {
        let i: int = h.len() as int + xb.len() as int;
        assert((h + xb + tb)[i] == tb[0]);
        assert(t[i] == xa[xb.len() as int]);
        assert(xa[xb.len() as int] == hex_digits(a as nat, wa)[wb as int]);
    }
    assert(wa == wb);
    let lo: int = h.len() as int + 2;
    assert(t.subrange(lo, lo + wa as int) =~= hex_digits(a as nat, wa));
    assert((h + xb + tb).subrange(lo, lo + wa as int) =~= hex_digits(b as nat, wb));
    lemma_below_pow16_width(a as nat);
    lemma_below_pow16_width(b as nat);
    lemma_pow16_monotonic(hex_width(a as nat), wa);
    lemma_pow16_monotonic(hex_width(b as nat), wb);
    lemma_hex_digits_injective(a as nat, b as nat, wa);
}

/// The text of a status, and that of a syndrome, determines the value: two statuses (or two
/// syndromes) with the same text are equal.
pub proof fn lemma_status_text_lossless(a: SpsrEL2, b: SpsrEL2, c: EsrEL2, d: EsrEL2)
    ensures
        spsr_text(a.raw) == spsr_text(b.raw) ==> a == b,
        esr_text(c.raw) == esr_text(d.raw) ==> c == d,
{
    if spsr_text(a.raw) == spsr_text(b.raw) {
        lemma_hex_field_injective(
            bytes_of("SPSR_EL2: "),
            a.raw,
            b.raw,
            spsr_details_text(a.raw),
            spsr_details_text(b.raw),
        );
    }
    if esr_text(c.raw) == esr_text(d.raw) {
        lemma_hex_field_injective(
            bytes_of("ESR_EL2: "),
            c.raw,
            d.raw,
            esr_details_text(c.raw),
            esr_details_text(d.raw),
        );
    }
}

/// The name of general purpose register `i`, padded to two characters.
pub open spec fn reg_label(i: nat) -> Seq<u8> {
    if i < 10 {
        seq![(48 + i) as u8, 32u8]
    } else {
        seq![(48 + i / 10) as u8, (48 + i % 10) as u8]
    }
}

/// The entry of general purpose register `i`: even registers open a line, odd ones close it.
pub open spec fn gpr_entry(i: nat, v: u64) -> Seq<u8> {
    bytes_of("      x") + reg_label(i) + bytes_of(": ") + hex_text(v as nat, 16) + if i % 2 == 0 {
        bytes_of("   ")
    } else {
        bytes_of("\n")
    }
}

/// The entries of the first `n` general purpose registers.
pub open spec fn gpr_text(gpr: Seq<u64>, n: nat) -> Seq<u8>
    decreases n,
{
    if n == 0 {
        Seq::empty()
    } else {
        gpr_text(gpr, (n - 1) as nat) + gpr_entry((n - 1) as nat, gpr[n - 1])
    }
}

/// The fault address line, present when the syndrome says the fault address is valid.
pub open spec fn far_text(esr: u64, far: Option<u64>) -> Seq<u8> {
    if fault_address_valid_class(spec_ec(esr)) && far is Some {
        bytes_of("FAR_EL2: ") + hex_text(far->Some_0 as nat, 16) + bytes_of("\n")
    } else {
        Seq::empty()
    }
}

/// The first part of a fatal exception report: banner, syndrome and fault address.
pub open spec fn report_head(e: ExceptionContext, far: Option<u64>) -> Seq<u8> {
    bytes_of("CPU Exception!\n\n") + (esr_text(e.esr_el2.raw) + bytes_of("\n")) + far_text(
        e.esr_el2.raw,
        far,
    )
}

/// The rest of a fatal exception report: status, return address, registers.
pub open spec fn report_tail(e: ExceptionContext) -> Seq<u8> {
    (spsr_text(e.spsr_el2.raw) + bytes_of("\n")) + (bytes_of("ELR_EL2: ") + hex_text(
        e.elr_el2 as nat,
        16,
    ) + bytes_of("\n") + bytes_of("\n")) + (bytes_of("General purpose register:\n") + gpr_text(
        e.gpr@,
        30,
    )) + (bytes_of("      lr : ") + hex_text(e.lr as nat, 16))
}

/// The report of a fatal exception: syndrome, fault address where valid, status, return
/// address, then the general purpose registers two to a line and the link register.
pub open spec fn report_text(e: ExceptionContext, far: Option<u64>) -> Seq<u8> {
    report_head(e, far) + report_tail(e)
}

fn push_reg_label(out: &mut Vec<u8>, i: usize)
    requires
        i < 100,
    ensures
        final(out)@ == old(out)@ + reg_label(i as nat),
{
    if i < 10 {
        out.push(48u8 + i as u8);
        out.push(32u8);
    } else {
        out.push(48u8 + (i / 10) as u8);
        out.push(48u8 + (i % 10) as u8);
    }
    assert(final(out)@ =~= old(out)@ + reg_label(i as nat));
}

impl ExceptionContext {
    fn write_gprs(&self, out: &mut Vec<u8>)
        ensures
            final(out)@ == old(out)@ + gpr_text(self.gpr@, 30),
    {
        let ghost start = out@;
        let mut i: usize = 0;
        assert(start + gpr_text(self.gpr@, 0) =~= start);
        while i < 30
            invariant
                i <= 30,
                out@ == start + gpr_text(self.gpr@, i as nat),
            decreases 30 - i,
        {
            let ghost before = out@;
            push_str(out, "      x");
            push_reg_label(out, i);
            push_str(out, ": ");
            push_hex(out, self.gpr[i], 16);
            if i % 2 == 0 {
                push_str(out, "   ");
            } else {
                push_str(out, "\n");
            }
            assert(out@ =~= before + gpr_entry(i as nat, self.gpr@[i as int]));
            i = i + 1;
            assert(out@ =~= start + gpr_text(self.gpr@, i as nat));
        }
    }

    fn write_report_head(&self, out: &mut Vec<u8>, far: Option<u64>)
        ensures
            final(out)@ == old(out)@ + report_head(*self, far),
    {
        let ghost start = out@;
        push_str(out, "CPU Exception!\n\n");
        let ghost s0 = out@;
        self.esr_el2.write_text(out);
        push_str(out, "\n");
        let ghost s1 = out@;
        assert(s1 =~= s0 + (esr_text(self.esr_el2.raw) + bytes_of("\n")));
        if self.fault_address_valid() {
            match far {
                Some(addr) => {
                    push_str(out, "FAR_EL2: ");
                    push_hex(out, addr, 16);
                    push_str(out, "\n");
                },
                None => {},
            }
        }
        assert(out@ =~= s1 + far_text(self.esr_el2.raw, far));
        assert(out@ =~= start + report_head(*self, far));
    }

    fn write_report_tail(&self, out: &mut Vec<u8>)
        ensures
            final(out)@ == old(out)@ + report_tail(*self),
    {
        let ghost start = out@;
        self.spsr_el2.write_text(out);
        push_str(out, "\n");
        let ghost s3 = out@;
        assert(s3 =~= start + (spsr_text(self.spsr_el2.raw) + bytes_of("\n")));
        push_str(out, "ELR_EL2: ");
        push_hex(out, self.elr_el2, 16);
        push_str(out, "\n");
        push_str(out, "\n");
        let ghost s4 = out@;
        assert(s4 =~= s3 + (bytes_of("ELR_EL2: ") + hex_text(self.elr_el2 as nat, 16) + bytes_of(
            "\n",
        ) + bytes_of("\n")));
        push_str(out, "General purpose register:\n");
        self.write_gprs(out);
        let ghost s5 = out@;
        assert(s5 =~= s4 + (bytes_of("General purpose register:\n") + gpr_text(self.gpr@, 30)));
        push_str(out, "      lr : ");
        push_hex(out, self.lr, 16);
        assert(out@ =~= s5 + (bytes_of("      lr : ") + hex_text(self.lr as nat, 16)));
        assert(out@ =~= start + report_tail(*self));
    }

    /// The report of a fatal exception for this context. `far` is the fault address register,
    /// read only when the syndrome says it is valid.
    pub fn report(&self, far: Option<u64>) -> (r: Vec<u8>)
        ensures
            r@ == report_text(*self, far),
    {
        let mut out: Vec<u8> = Vec::new();
        self.write_report_head(&mut out, far);
        self.write_report_tail(&mut out);
        assert(out@ =~= report_text(*self, far));
        out
    }
}

/// A synchronous fault at the current level resumes exactly when its class comes with a valid
/// fault address and that address is the sentinel; the return address then moves on by one
/// instruction. Every other fault, and every trap at another vector entry, is fatal.
pub proof fn lemma_sentinel_fault_only_resumes(vector: ExceptionVector, esr: u64, far: Option<u64>)
    ensures
        trap_outcome(vector, esr, far) is Resume <==> (vector == ExceptionVector::CurrentElxSynchronous
            && fault_address_valid_class(spec_ec(esr)) && far == Some(FAULT_SENTINEL_ADDRESS)),
        trap_outcome(vector, esr, far) is Fatal <==> !(vector
            == ExceptionVector::CurrentElxSynchronous && fault_address_valid_class(spec_ec(esr))
            && far == Some(FAULT_SENTINEL_ADDRESS)),
{
}

} // verus!
