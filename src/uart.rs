use vstd::prelude::*;
use vstd::string::StringSliceAdditionalSpecFns;
use crate::gpio::{field_write_of, FieldWrite, Pin, Pull, Select};

verus! {

pub const AUX_BASE: u32 = 0xFE215000;
pub const AUX_ENABLES: u32 = 0xFE215004;
pub const AUX_MU_IO_REG: u32 = 0xFE215040;
pub const AUX_MU_IER_REG: u32 = 0xFE215044;
pub const AUX_MU_IIR_REG: u32 = 0xFE215048;
pub const AUX_MU_LCR_REG: u32 = 0xFE21504C;
pub const AUX_MU_MCR_REG: u32 = 0xFE215050;
pub const AUX_MU_LSR_REG: u32 = 0xFE215054;
pub const AUX_MU_CNTL_REG: u32 = 0xFE215060;
pub const AUX_MU_BAUD_REG: u32 = 0xFE215068;

/// Clock of the mini UART, in Hz.
pub const AUX_UART_CLOCK: u32 = 500000000;

/// Capacity of the transmit queue.
pub const UART_MAX_QUEUE: usize = 100;

/// Baud rate the UART is set up for.
pub const UART_BAUD: u32 = 115200;

/// The baud rate register value for `baud`.
pub fn aux_mu_baud(baud: u32) -> (r: u32)
    requires
        0 < baud <= 62_500_000,
    ensures
        r == AUX_UART_CLOCK as int / (baud as int * 8) - 1,
{
    assert(500000000int / (baud as int * 8) >= 1) by (nonlinear_arith)
        requires
            0 < baud <= 62_500_000,
    ;
    (AUX_UART_CLOCK / (baud * 8)) - 1
}

/// Whether the line status register value says a received byte is waiting.
pub open spec fn spec_rx_ready(lsr: u32) -> bool {
    lsr & 0x01 != 0
}

/// Whether the line status register value says the transmitter can take a byte.
pub open spec fn spec_tx_empty(lsr: u32) -> bool {
    lsr & 0x20 != 0
}

/// Whether no received byte is waiting, by the line status register value `lsr`.
pub fn rx_empty(lsr: u32) -> (r: bool)
    ensures
        r == !spec_rx_ready(lsr),
{
    (lsr & 0x01) == 0
}

/// Whether the transmitter can take a byte, by the line status register value `lsr`.
pub fn tx_empty(lsr: u32) -> (r: bool)
    ensures
        r == spec_tx_empty(lsr),
{
    (lsr & 0x20) != 0
}

/// A received byte as the terminal means it: a carriage return stands for a new line.
pub open spec fn received_byte(io: u32) -> u8 {
    if io as u8 == 13u8 {
        10u8
    } else {
        io as u8
    }
}

/// The byte read from the I/O register value `io`.
pub fn read_byte_blocking(io: u32) -> (r: u8)
    ensures
        r == io as u8,
{
    io as u8
}

/// The bytes that go on the wire for `bt`: a new line goes out as carriage return, new line.
pub open spec fn wire_byte(bt: u8) -> Seq<u8> {
    if bt == 10u8 {
        seq![13u8, 10u8]
    } else {
        seq![bt]
    }
}

/// The bytes that go on the wire for the message `s`.
pub open spec fn wire_bytes(s: Seq<u8>) -> Seq<u8>
    decreases s.len(),
{
    if s.len() == 0 {
        Seq::empty()
    } else {
        wire_bytes(s.drop_last()) + wire_byte(s.last())
    }
}

/// Writes to the UART byte by byte, waiting for the transmitter each time.
#[derive(Debug)]
pub struct BlockingWriter;

impl BlockingWriter {
    /// The bytes to transmit for `bt`.
    pub fn write_byte(bt: u8) -> (r: Vec<u8>)
        ensures
            r@ == wire_byte(bt),
    {
        let mut out: Vec<u8> = Vec::new();
        if bt == 10u8 {
            out.push(13u8);
        }
        out.push(bt);
        assert(out@ =~= wire_byte(bt));
        out
    }

    /// The bytes to transmit for the message `msg`.
    pub fn write(msg: &str) -> (r: Vec<u8>)
        ensures
            r@ == wire_bytes(msg.spec_bytes()),
    {
        let b = msg.as_bytes();
        let mut out: Vec<u8> = Vec::new();
        let mut i: usize = 0;
        while i < b.len()
            invariant
                i <= b@.len(),
                out@ == wire_bytes(b@.subrange(0, i as int)),
            decreases b@.len() - i,
        {
            let mut w = BlockingWriter::write_byte(b[i]);
            out.append(&mut w);
            assert(b@.subrange(0, i + 1).drop_last() =~= b@.subrange(0, i as int));
            i = i + 1;
        }
        assert(b@.subrange(0, b@.len() as int) =~= b@);
        out
    }
}

/// A queue of bytes waiting to be transmitted without blocking.
#[derive(Debug)]
pub struct FIFOWriter {
    write_cur: usize,
    read_cur: usize,
    buffer: Vec<u8>,
}

impl FIFOWriter {
    pub closed spec fn wf(&self) -> bool {
        self.read_cur <= self.write_cur <= UART_MAX_QUEUE && self.buffer@.len() == UART_MAX_QUEUE
    }

    /// The bytes waiting, oldest first.
    pub closed spec fn pending(&self) -> Seq<u8> {
        self.buffer@.subrange(self.read_cur as int, self.write_cur as int)
    }

    /// Whether another byte can be queued.
    pub closed spec fn spec_has_room(&self) -> bool {
        self.write_cur < UART_MAX_QUEUE
    }

    /// An empty queue.
    pub fn new() -> (r: FIFOWriter)
        ensures
            r.wf(),
            r.pending() == Seq::<u8>::empty(),
            r.spec_has_room(),
    {
        FIFOWriter { write_cur: 0, read_cur: 0, buffer: vec![0u8; UART_MAX_QUEUE] }
    }

    /// Whether another byte can be queued before the queue next drains.
    pub fn has_room(&self) -> (r: bool)
        ensures
            r == self.spec_has_room(),
    {
        self.write_cur < UART_MAX_QUEUE
    }

    /// Whether nothing is waiting.
    pub fn is_drained(&self) -> (r: bool)
        requires
            self.wf(),
        ensures
            r == (self.pending().len() == 0),
    {
        self.write_cur == self.read_cur
    }

    /// Queue `bt` for transmission.
    pub fn enqueue(&mut self, bt: u8)
        requires
            old(self).wf(),
            old(self).spec_has_room(),
        ensures
            final(self).wf(),
            final(self).pending() == old(self).pending().push(bt),
    {
        let w = self.write_cur;
        self.buffer.set(w, bt);
        self.write_cur = w + 1;
        assert(self.pending() =~= old(self).pending().push(bt));
    }

    /// Whether nothing is waiting. When so, the queue starts over at the front of its buffer.
    pub fn queue_empty(&mut self) -> (r: bool)
        requires
            old(self).wf(),
        ensures
            final(self).wf(),
            r == (old(self).pending().len() == 0),
            final(self).pending() == old(self).pending(),
            r ==> final(self).spec_has_room(),
            old(self).spec_has_room() ==> final(self).spec_has_room(),
    {
        if self.write_cur == self.read_cur {
            self.write_cur = 0;
            self.read_cur = 0;
            assert(self.pending() =~= old(self).pending());
            return true;
        }
        false
    }

    /// Hand the oldest waiting byte to the transmitter when it can take one: the bytes to put
    /// on the wire, none when nothing is waiting or the transmitter is busy.
    pub fn send(&mut self, tx_ready: bool) -> (r: Vec<u8>)
        requires
            old(self).wf(),
        ensures
            final(self).wf(),
            old(self).spec_has_room() ==> final(self).spec_has_room(),
            old(self).pending().len() == 0 ==> final(self).spec_has_room(),
            (old(self).pending().len() > 0 && tx_ready) ==> r@ == wire_byte(old(self).pending()[0])
                && final(self).pending() == old(self).pending().drop_first(),
            !(old(self).pending().len() > 0 && tx_ready) ==> r@.len() == 0 && final(self).pending()
                == old(self).pending(),
    {
        if !self.queue_empty() && tx_ready {
            let bt = self.buffer[self.read_cur];
            let out = BlockingWriter::write_byte(bt);
            self.read_cur = self.read_cur + 1;
            assert(self.pending() =~= old(self).pending().drop_first());
            out
        } else {
            Vec::new()
        }
    }
}

/// One step of the UART's polling loop: send a queued byte if the transmitter can take it, then
/// queue the byte received, if any. Returns the bytes to put on the wire.
pub fn uart_io_update(fifo: &mut FIFOWriter, tx_ready: bool, received: Option<u32>) -> (r: Vec<u8>)
    requires
        old(fifo).wf(),
        received is Some ==> (old(fifo).spec_has_room() || old(fifo).pending().len() == 0),
    ensures
        final(fifo).wf(),
        (old(fifo).pending().len() > 0 && tx_ready) ==> r@ == wire_byte(old(fifo).pending()[0]),
        !(old(fifo).pending().len() > 0 && tx_ready) ==> r@.len() == 0,
        final(fifo).pending() == {
            let rest = if old(fifo).pending().len() > 0 && tx_ready {
                old(fifo).pending().drop_first()
            } else {
                old(fifo).pending()
            };
            match received {
                Some(io) => rest.push(received_byte(io)),
                None => rest,
            }
        },
{
    let out = fifo.send(tx_ready);
    match received {
        Some(io) => {
            let bt = match read_byte_blocking(io) {
                13u8 => 10u8,
                b => b,
            };
            fifo.enqueue(bt);
        },
        None => {},
    }
    out
}

/// One step of bringing up the UART.
#[derive(Debug, Clone, Copy, PartialEq, Eq, Structural)]
pub enum InitStep {
    /// Write `1` to the register at `0`.
    Write(u32, u32),
    /// Read-modify-write of a GPIO register.
    Field(FieldWrite),
}

/// The steps that bring up the mini UART at `UART_BAUD` on pins 14 and 15.
pub open spec fn init_steps() -> Seq<InitStep> {
    seq![
        InitStep::Write(AUX_ENABLES, 1),
        InitStep::Write(AUX_MU_IER_REG, 0),
        InitStep::Write(AUX_MU_CNTL_REG, 0),
        InitStep::Write(AUX_MU_LCR_REG, 3),
        InitStep::Write(AUX_MU_MCR_REG, 0),
        InitStep::Write(AUX_MU_IER_REG, 0),
        InitStep::Write(AUX_MU_IIR_REG, 0xC6),
        InitStep::Write(AUX_MU_BAUD_REG, (AUX_UART_CLOCK as int / (UART_BAUD as int * 8) - 1) as u32),
        InitStep::Field(field_write_of(Pin(14), 0b00, 2, crate::gpio::GPPUPPDN0)),
        InitStep::Field(field_write_of(Pin(14), 0b010, 3, crate::gpio::GPFSEL0)),
        InitStep::Field(field_write_of(Pin(15), 0b00, 2, crate::gpio::GPPUPPDN0)),
        InitStep::Field(field_write_of(Pin(15), 0b010, 3, crate::gpio::GPFSEL0)),
        InitStep::Write(AUX_MU_CNTL_REG, 3),
    ]
}

/// The register writes that bring up the UART: enable it, 8-bit mode, no interrupts, the baud
/// rate, pins 14 and 15 floating on their alternate function 5, then receiver and transmitter on.
pub fn init() -> (r: Vec<InitStep>)
    ensures
        r@ == init_steps(),
{
    let mut steps: Vec<InitStep> = Vec::new();
    steps.push(InitStep::Write(AUX_ENABLES, 1));
    steps.push(InitStep::Write(AUX_MU_IER_REG, 0));
    steps.push(InitStep::Write(AUX_MU_CNTL_REG, 0));
    steps.push(InitStep::Write(AUX_MU_LCR_REG, 3));
    steps.push(InitStep::Write(AUX_MU_MCR_REG, 0));
    steps.push(InitStep::Write(AUX_MU_IER_REG, 0));
    steps.push(InitStep::Write(AUX_MU_IIR_REG, 0xC6));
    steps.push(InitStep::Write(AUX_MU_BAUD_REG, aux_mu_baud(UART_BAUD)));
    steps.push(InitStep::Field(Pin(14).pull(Pull::Float)));
    steps.push(InitStep::Field(Pin(14).select(Select::AltFn5)));
    steps.push(InitStep::Field(Pin(15).pull(Pull::Float)));
    steps.push(InitStep::Field(Pin(15).select(Select::AltFn5)));
    steps.push(InitStep::Write(AUX_MU_CNTL_REG, 3));
    assert(steps@ =~= init_steps());
    steps
}

} // verus!
