use vstd::prelude::*;

verus! {

/// Base address of the peripherals in the ARM physical address map.
pub const PERIPHERAL_BASE: u32 = 0xFE000000;

/// Function select registers.
pub const GPFSEL0: u32 = 0xFE200000;

/// Pull-up / pull-down registers.
pub const GPPUPPDN0: u32 = 0xFE2000E4;

/// Number of GPIO lines: bank 0 holds 0 to 27, bank 1 28 to 45, bank 2 46 to 57.
pub const PIN_COUNT: u32 = 58;

/// Implemented by values that are written into a bit field of a GPIO register.
pub trait BinField {
    spec fn spec_val(&self) -> u32;

    spec fn spec_field_size(&self) -> u32;

    /// The value of the field.
    fn val(&self) -> (r: u32)
        ensures
            r == self.spec_val(),
            r < (1u32 << self.spec_field_size()),
            1 <= self.spec_field_size() <= 8,
    ;

    /// The size of the field, in bits.
    fn field_size(&self) -> (r: u32)
        ensures
            r == self.spec_field_size(),
            1 <= r <= 8,
    ;
}

/// The pull state of a GPIO pin.
#[derive(Debug, Clone, Copy, PartialEq, Eq, Structural)]
pub enum Pull {
    Float,
    High,
    Low,
}

impl BinField for Pull {
    open spec fn spec_val(&self) -> u32 {
        match self {
            Pull::Float => 0b00,
            Pull::High => 0b01,
            Pull::Low => 0b10,
        }
    }

    open spec fn spec_field_size(&self) -> u32 {
        2
    }

    fn val(&self) -> (r: u32) {
        assert(1u32 << 2u32 == 4u32) by (bit_vector);
        match self {
            Pull::Float => 0b00,
            Pull::High => 0b01,
            Pull::Low => 0b10,
        }
    }

    fn field_size(&self) -> (r: u32) {
        2
    }
}

/// The function of a GPIO pin.
#[derive(Debug, Clone, Copy, PartialEq, Eq, Structural)]
pub enum Select {
    Input,
    Output,
    AltFn0,
    AltFn1,
    AltFn2,
    AltFn3,
    AltFn4,
    AltFn5,
}

impl BinField for Select {
    open spec fn spec_val(&self) -> u32 {
        match self {
            Select::Input => 0b000,
            Select::Output => 0b001,
            Select::AltFn0 => 0b100,
            Select::AltFn1 => 0b101,
            Select::AltFn2 => 0b110,
            Select::AltFn3 => 0b111,
            Select::AltFn4 => 0b011,
            Select::AltFn5 => 0b010,
        }
    }

    open spec fn spec_field_size(&self) -> u32 {
        3
    }

    fn val(&self) -> (r: u32) {
        assert(1u32 << 3u32 == 8u32) by (bit_vector);
        match self {
            Select::Input => 0b000,
            Select::Output => 0b001,
            Select::AltFn0 => 0b100,
            Select::AltFn1 => 0b101,
            Select::AltFn2 => 0b110,
            Select::AltFn3 => 0b111,
            Select::AltFn4 => 0b011,
            Select::AltFn5 => 0b010,
        }
    }

    fn field_size(&self) -> (r: u32) {
        3
    }
}

/// A read-modify-write of one register: keep the bits outside `mask`, put `bits` in it.
#[derive(Debug, Clone, Copy, PartialEq, Eq, Structural)]
pub struct FieldWrite {
    pub reg: u32,
    pub mask: u32,
    pub bits: u32,
}

impl FieldWrite {
    /// The register value after the write, given its value before.
    pub fn apply(&self, current: u32) -> (r: u32)
        ensures
            r == (current & !self.mask) | self.bits,
    {
        (current & !self.mask) | self.bits
    }
}

/// The register that holds the field of pin `pin` for fields of `size` bits, from `base`.
pub open spec fn field_register(base: u32, pin: u32, size: u32) -> int {
    base as int + (pin / (32u32 / size)) as int * 4
}

/// The position of that field within its register.
pub open spec fn field_shift(pin: u32, size: u32) -> u32 {
    ((pin % (32u32 / size)) as int * size as int) as u32
}

/// A GPIO pin, by number.
#[derive(Debug, Clone, Copy, PartialEq, Eq, Structural)]
pub struct Pin(pub u32);

impl Pin {
    /// The register write that selects function `func` for this pin.
    pub fn select(self, func: Select) -> (r: FieldWrite)
        requires
            self.0 < PIN_COUNT,
        ensures
            r == field_write_of(self, func.spec_val(), 3, GPFSEL0),
    {
        call(self, func, GPFSEL0)
    }

    /// The register write that sets this pin's pull state.
    pub fn pull(self, pull: Pull) -> (r: FieldWrite)
        requires
            self.0 < PIN_COUNT,
        ensures
            r == field_write_of(self, pull.spec_val(), 2, GPPUPPDN0),
    {
        call(self, pull, GPPUPPDN0)
    }
}

/// The write that puts `val` in the `size`-bit field of `pin` in the register bank at `base`.
pub open spec fn field_write_of(pin: Pin, val: u32, size: u32, base: u32) -> FieldWrite {
    FieldWrite {
        reg: field_register(base, pin.0, size) as u32,
        mask: (((1u32 << size) - 1) as u32) << field_shift(pin.0, size),
        bits: val << field_shift(pin.0, size),
    }
}

/// The register write that puts `value` in the field of `pin` in the register bank at
/// `base_addr`.
pub fn call<T: BinField>(pin: Pin, value: T, base_addr: u32) -> (r: FieldWrite)
    requires
        pin.0 < PIN_COUNT,
        base_addr <= 0xFFFF_0000,
    ensures
        r == field_write_of(pin, value.spec_val(), value.spec_field_size(), base_addr),
{
    let pin_number = pin.0;
    let field_size = value.field_size();
    assert(1u32 << field_size >= 1u32) by (bit_vector)
        requires
            field_size <= 8u32,
    ;
    let field_mask: u32 = (1u32 << field_size) - 1;
    let num_fields = 32 / field_size;
    assert(num_fields >= 4u32) by (nonlinear_arith)
        requires
            num_fields == 32u32 / field_size,
            1u32 <= field_size <= 8u32,
    ;
    assert(pin_number / num_fields <= 58u32) by (nonlinear_arith)
        requires
            pin_number < 58u32,
            num_fields >= 4u32,
    ;
    let reg = base_addr + (pin_number / num_fields) * 4;
    let rem = pin_number % num_fields;
    assert(rem * field_size < 32) by (nonlinear_arith)
        requires
            rem < num_fields,
            num_fields == 32u32 / field_size,
            1u32 <= field_size <= 8u32,
    ;
    let shift = rem * field_size;
    FieldWrite { reg, mask: field_mask << shift, bits: value.val() << shift }
}

} // verus!
