use vstd::prelude::*;
use crate::epd::{bytes1, cmd, filled, BusOp, BusOpView, OpLog, BUFFER_SIZE};

verus! {

pub const POWER_OFF: u8 = 0x02;
pub const PANEL_SETTING: u8 = 0x00;
pub const POWER_SETTING: u8 = 0x01;
pub const POWER_ON: u8 = 0x04;
pub const BOOSTER_SOFT_START: u8 = 0x06;
pub const DISPLAY_REFRESH: u8 = 0x12;
pub const DATA_START_TRANSMISSION_1: u8 = 0x10;
pub const DATA_START_TRANSMISSION_2: u8 = 0x13;
pub const VCOM_AND_DATA_INTERVAL_SETTING: u8 = 0x50;

/// A failure reported by the panel's bus, as text.
#[derive(Debug)]
pub enum DisplayError {
    General(String),
}

impl DisplayError {
    /// Relies on `format!` with `{:?}`: the error's debug text.
    #[verifier::external_body]
    pub fn from_debug<T: std::fmt::Debug>(e: T) -> (r: Self)
        ensures
            r is General,
    {
        DisplayError::General(format!("{:?}", e))
    }
}

/// Bring-up of the UC8253 controller: power setting, booster soft start, panel setting with the
/// waveform from OTP, power on, VCOM and data interval, both frames black, then a refresh.
pub open spec fn init_sequence() -> Seq<BusOpView> {
    seq![
        BusOpView::DelayMs(2),
        BusOpView::Command(POWER_SETTING),
        BusOpView::Data(seq![0x03u8, 0x10u8, 0x3Fu8, 0x3Fu8, 0x0Du8]),
        BusOpView::Command(BOOSTER_SOFT_START),
        BusOpView::Data(seq![0x17u8, 0x17u8, 0x17u8]),
        BusOpView::Command(PANEL_SETTING),
        BusOpView::Data(seq![0x9Eu8, 0x8Du8]),
        BusOpView::Command(POWER_ON),
        BusOpView::BusyWait,
        BusOpView::Command(VCOM_AND_DATA_INTERVAL_SETTING),
        BusOpView::Data(seq![0xD7u8]),
        BusOpView::Command(DATA_START_TRANSMISSION_1),
        BusOpView::Data(filled(BUFFER_SIZE as nat, 0)),
        BusOpView::Command(DATA_START_TRANSMISSION_2),
        BusOpView::Data(filled(BUFFER_SIZE as nat, 0)),
        BusOpView::Command(DISPLAY_REFRESH),
        BusOpView::BusyWait,
    ]
}

/// Showing a frame: the frame's bytes, then a refresh.
pub open spec fn frame_sequence(buf: Seq<u8>) -> Seq<BusOpView> {
    seq![
        BusOpView::Command(DATA_START_TRANSMISSION_1),
        BusOpView::Data(buf),
        BusOpView::Command(DISPLAY_REFRESH),
        BusOpView::BusyWait,
    ]
}

/// Driver of a 240 by 320 e-paper panel on a UC8253 controller. It issues the operations that
/// drive the panel, which the platform carries out on the bus in order.
pub struct EPDisplay {
    log: OpLog,
}

impl View for EPDisplay {
    type V = Seq<BusOpView>;

    closed spec fn view(&self) -> Seq<BusOpView> {
        self.log@
    }
}

impl EPDisplay {
    pub fn new() -> (r: EPDisplay)
        ensures
            r@ == Seq::<BusOpView>::empty(),
    {
        EPDisplay { log: OpLog::new() }
    }

    /// Hand over the operations issued so far, oldest first.
    pub fn take_ops(&mut self) -> (r: Vec<BusOp>)
        ensures
            r@.map_values(|o: BusOp| o@) == old(self)@,
            final(self)@ == Seq::<BusOpView>::empty(),
    {
        self.log.take()
    }

    pub fn write_command(&mut self, command: u8)
        ensures
            final(self)@ == old(self)@ + cmd(command),
    {
        self.log.issue(BusOp::Command(command));
        assert(self@ =~= old(self)@ + cmd(command));
    }

    pub fn write_data(&mut self, data: &[u8])
        ensures
            final(self)@ == old(self)@.push(BusOpView::Data(data@)),
    {
        self.log.issue(BusOp::Data(vstd::slice::slice_to_vec(data)));
    }

    fn write_data_vec(&mut self, data: Vec<u8>)
        ensures
            final(self)@ == old(self)@.push(BusOpView::Data(data@)),
    {
        self.log.issue(BusOp::Data(data));
    }

    /// Bring the panel up.
    pub fn init(&mut self)
        ensures
            final(self)@ == old(self)@ + init_sequence(),
    {
        self.log.issue(BusOp::DelayMs(2));
        self.write_command(POWER_SETTING);
        let mut p: Vec<u8> = Vec::new();
        p.push(0x03);
        p.push(0x10);
        p.push(0x3F);
        p.push(0x3F);
        p.push(0x0D);
        assert(p@ =~= seq![0x03u8, 0x10u8, 0x3Fu8, 0x3Fu8, 0x0Du8]);
        self.write_data_vec(p);
        self.write_command(BOOSTER_SOFT_START);
        let mut b: Vec<u8> = Vec::new();
        b.push(0x17);
        b.push(0x17);
        b.push(0x17);
        assert(b@ =~= seq![0x17u8, 0x17u8, 0x17u8]);
        self.write_data_vec(b);
        self.write_command(PANEL_SETTING);
        self.write_data_vec(crate::epd::bytes2(0x9E, 0x8D));
        self.write_command(POWER_ON);
        self.log.issue(BusOp::BusyWait);
        self.write_command(VCOM_AND_DATA_INTERVAL_SETTING);
        self.write_data_vec(bytes1(0xD7));
        self.write_command(DATA_START_TRANSMISSION_1);
        let z1 = vec![0u8; BUFFER_SIZE];
        assert(z1@ =~= filled(BUFFER_SIZE as nat, 0));
        self.write_data_vec(z1);
        self.write_command(DATA_START_TRANSMISSION_2);
        let z2 = vec![0u8; BUFFER_SIZE];
        assert(z2@ =~= filled(BUFFER_SIZE as nat, 0));
        self.write_data_vec(z2);
        self.write_command(DISPLAY_REFRESH);
        self.log.issue(BusOp::BusyWait);
        assert(self@ =~= old(self)@ + init_sequence());
    }

    /// Show the frame `buf`.
    pub fn display_frame(&mut self, buf: &[u8])
        ensures
            final(self)@ == old(self)@ + frame_sequence(buf@),
    {
        self.write_command(DATA_START_TRANSMISSION_1);
        self.write_data(buf);
        self.write_command(DISPLAY_REFRESH);
        self.log.issue(BusOp::BusyWait);
        assert(self@ =~= old(self)@ + frame_sequence(buf@));
    }
}

} // verus!
