use vstd::prelude::*;
use crate::epd::{bytes1, bytes2, cmd, filled, BusOp, BusOpView, OpLog, BUFFER_SIZE};
pub use crate::display::DisplayError;

verus! {

pub const PANEL_SETTING: u8 = 0x00;
pub const POWER_ON: u8 = 0x04;
pub const DISPLAY_REFRESH: u8 = 0x12;
pub const DATA_START_TRANSMISSION_1: u8 = 0x10;
pub const DATA_START_TRANSMISSION_2: u8 = 0x13;
pub const VCOM_AND_DATA_INTERVAL_SETTING: u8 = 0x50;

/// Byte that the frame buffer starts with: black.
pub const BUFFER_INIT_BYTE: u8 = 0x00;

/// The colour of a byte of eight pixels.
#[derive(Debug, Clone, Copy, PartialEq, Eq, Structural)]
pub enum Colour {
    BLACK,
    WHITE,
}

impl Colour {
    pub open spec fn spec_byte(&self) -> u8 {
        match self {
            Colour::BLACK => 0x00,
            Colour::WHITE => 0xFF,
        }
    }

    /// The byte of eight pixels of this colour.
    pub fn byte(&self) -> (r: u8)
        ensures
            r == self.spec_byte(),
    {
        match self {
            Colour::BLACK => 0x00,
            Colour::WHITE => 0xFF,
        }
    }
}

/// The controller's two frame memories.
#[derive(Debug, Clone, Copy, PartialEq, Eq, Structural)]
pub enum TargetBuf {
    Previous,
    Next,
}

impl TargetBuf {
    pub open spec fn spec_command(&self) -> u8 {
        match self {
            TargetBuf::Previous => DATA_START_TRANSMISSION_1,
            TargetBuf::Next => DATA_START_TRANSMISSION_2,
        }
    }

    /// The command that starts data transmission into this memory.
    pub fn command(&self) -> (r: u8)
        ensures
            r == self.spec_command(),
    {
        match self {
            TargetBuf::Previous => DATA_START_TRANSMISSION_1,
            TargetBuf::Next => DATA_START_TRANSMISSION_2,
        }
    }
}

/// Panel setting: soft reset, a pause, then the main setting.
pub open spec fn driver_init_ops() -> Seq<BusOpView> {
    seq![
        BusOpView::Command(PANEL_SETTING),
        BusOpView::Data(seq![0x1Eu8, 0x0Du8]),
        BusOpView::DelayMs(10),
        BusOpView::Command(PANEL_SETTING),
        BusOpView::Data(seq![0x1Fu8, 0x0Du8]),
    ]
}

/// A full refresh: panel setting, VCOM and data interval, power on, refresh.
pub open spec fn full_refresh_ops() -> Seq<BusOpView> {
    driver_init_ops() + seq![
        BusOpView::Command(VCOM_AND_DATA_INTERVAL_SETTING),
        BusOpView::Data(seq![0x97u8]),
        BusOpView::Command(POWER_ON),
        BusOpView::BusyWait,
        BusOpView::Command(DISPLAY_REFRESH),
        BusOpView::BusyWait,
    ]
}

/// Filling frame memory `target` with `val`.
pub open spec fn write_fill_ops(target: TargetBuf, val: u8) -> Seq<BusOpView> {
    seq![BusOpView::Command(target.spec_command()), BusOpView::Data(filled(BUFFER_SIZE as nat, val))]
}

/// Driver of a 240 by 320 e-paper panel, with its own frame buffer. It issues the operations
/// that drive the panel, which the platform carries out on the bus in order.
pub struct EPDisplay {
    log: OpLog,
    buf: Vec<u8>,
}

impl View for EPDisplay {
    type V = Seq<BusOpView>;

    closed spec fn view(&self) -> Seq<BusOpView> {
        self.log@
    }
}

impl EPDisplay {
    /// The frame buffer.
    pub closed spec fn frame(&self) -> Seq<u8> {
        self.buf@
    }

    pub fn new() -> (r: EPDisplay)
        ensures
            r@ == Seq::<BusOpView>::empty(),
            r.frame() == filled(BUFFER_SIZE as nat, BUFFER_INIT_BYTE),
    {
        let buf = vec![BUFFER_INIT_BYTE; BUFFER_SIZE];
        assert(buf@ =~= filled(BUFFER_SIZE as nat, BUFFER_INIT_BYTE));
        EPDisplay { log: OpLog::new(), buf }
    }

    /// Hand over the operations issued so far, oldest first.
    pub fn take_ops(&mut self) -> (r: Vec<BusOp>)
        ensures
            r@.map_values(|o: BusOp| o@) == old(self)@,
            final(self)@ == Seq::<BusOpView>::empty(),
            final(self).frame() == old(self).frame(),
    {
        self.log.take()
    }

    fn command(&mut self, c: u8)
        ensures
            final(self)@ == old(self)@ + cmd(c),
            final(self).frame() == old(self).frame(),
    {
        self.log.issue(BusOp::Command(c));
        assert(self@ =~= old(self)@ + cmd(c));
    }

    fn data(&mut self, d: Vec<u8>)
        ensures
            final(self)@ == old(self)@.push(BusOpView::Data(d@)),
            final(self).frame() == old(self).frame(),
    {
        self.log.issue(BusOp::Data(d));
    }

    /// Panel setting.
    pub fn init(&mut self)
        ensures
            final(self)@ == old(self)@ + driver_init_ops(),
            final(self).frame() == old(self).frame(),
    {
        self.command(PANEL_SETTING);
        self.data(bytes2(0x1E, 0x0D));
        self.log.issue(BusOp::DelayMs(10));
        self.command(PANEL_SETTING);
        self.data(bytes2(0x1F, 0x0D));
        assert(self@ =~= old(self)@ + driver_init_ops());
    }

    /// Show both frame memories with a full refresh.
    pub fn full_refresh(&mut self)
        ensures
            final(self)@ == old(self)@ + full_refresh_ops(),
            final(self).frame() == old(self).frame(),
    {
        self.init();
        self.command(VCOM_AND_DATA_INTERVAL_SETTING);
        self.data(bytes1(0x97));
        self.command(POWER_ON);
        self.log.issue(BusOp::BusyWait);
        self.command(DISPLAY_REFRESH);
        self.log.issue(BusOp::BusyWait);
        assert(self@ =~= old(self)@ + full_refresh_ops());
    }

    /// Fill frame memory `target` with `val`.
    pub fn write_fill(&mut self, target: TargetBuf, val: u8)
        ensures
            final(self)@ == old(self)@ + write_fill_ops(target, val),
            final(self).frame() == old(self).frame(),
    {
        self.command(target.command());
        let d = vec![val; BUFFER_SIZE];
        assert(d@ =~= filled(BUFFER_SIZE as nat, val));
        self.data(d);
        assert(self@ =~= old(self)@ + write_fill_ops(target, val));
    }

    /// Clear the screen to `colour`: both frame memories filled, then a full refresh.
    pub fn clear(&mut self, colour: Colour)
        ensures
            final(self)@ == old(self)@ + driver_init_ops() + write_fill_ops(
                TargetBuf::Previous,
                colour.spec_byte(),
            ) + write_fill_ops(TargetBuf::Next, colour.spec_byte()) + full_refresh_ops(),
            final(self).frame() == old(self).frame(),
    {
        self.init();
        self.write_fill(TargetBuf::Previous, colour.byte());
        self.write_fill(TargetBuf::Next, colour.byte());
        self.full_refresh();
    }
}

} // verus!
