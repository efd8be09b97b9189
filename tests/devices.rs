use kernel_core::display;
use kernel_core::epd::{BusOp, Epd310Gdeq031t10, BUFFER_SIZE};
use kernel_core::epdisplay::{self, Colour, TargetBuf};
use kernel_core::gpio::{call, FieldWrite, Pin, Pull, Select, GPFSEL0, GPPUPPDN0};
use kernel_core::uart::{
    aux_mu_baud, init, read_byte_blocking, rx_empty, tx_empty, uart_io_update, BlockingWriter,
    FIFOWriter, InitStep, AUX_ENABLES, AUX_MU_BAUD_REG, AUX_MU_CNTL_REG,
};

fn data(b: &[u8]) -> BusOp {
    BusOp::Data(b.to_vec())
}

fn update(temp: u8, vcom: u8, wait: u32, power_on: bool) -> Vec<BusOp> {
    let mut v = vec![
        BusOp::Command(0xE0),
        data(&[0x02]),
        BusOp::Command(0xE5),
        data(&[temp]),
        BusOp::Command(0x50),
        data(&[vcom]),
    ];
    if power_on {
        v.push(BusOp::Command(0x04));
        v.push(BusOp::WaitWhileBusy(50));
    }
    v.push(BusOp::Command(0x12));
    v.push(BusOp::WaitWhileBusy(wait));
    v
}

fn image_of(ops: &[BusOp]) -> Vec<u8> {
    for o in ops {
        if let BusOp::Image(b) = o {
            return b.clone();
        }
    }
    panic!("no image was sent");
}

#[test]
fn pin_pull_field() {
    let w = Pin(14).pull(Pull::Float);
    assert_eq!(w, FieldWrite { reg: GPPUPPDN0, mask: 0x3000_0000, bits: 0 });
    let h = Pin(3).pull(Pull::High);
    assert_eq!(h, FieldWrite { reg: GPPUPPDN0, mask: 0b11 << 6, bits: 0b01 << 6 });
    let l = Pin(16).pull(Pull::Low);
    assert_eq!(l, FieldWrite { reg: GPPUPPDN0 + 4, mask: 0b11, bits: 0b10 });
}

#[test]
fn pin_select_field() {
    let w = Pin(15).select(Select::AltFn5);
    assert_eq!(w, FieldWrite { reg: 0xFE20_0004, mask: 0x38000, bits: 0x10000 });
    assert_eq!(w.apply(0xFFFF_FFFF), 0xFFFD_7FFF);
    assert_eq!(w.apply(0), 0x10000);
    let o = Pin(57).select(Select::Output);
    assert_eq!(o, FieldWrite { reg: GPFSEL0 + 20, mask: 0xE0_0000, bits: 0x20_0000 });
    assert_eq!(call(Pin(0), Select::AltFn4, GPFSEL0), FieldWrite { reg: GPFSEL0, mask: 7, bits: 0b011 });
}

#[test]
fn baud_divisor() {
    assert_eq!(aux_mu_baud(115200), 541);
    assert_eq!(aux_mu_baud(9600), 6509);
}

#[test]
fn uart_init_sequence() {
    let steps = init();
    assert_eq!(steps.len(), 13);
    assert_eq!(steps[0], InitStep::Write(AUX_ENABLES, 1));
    assert_eq!(steps[7], InitStep::Write(AUX_MU_BAUD_REG, 541));
    assert_eq!(steps[8], InitStep::Field(Pin(14).pull(Pull::Float)));
    assert_eq!(steps[11], InitStep::Field(Pin(15).select(Select::AltFn5)));
    assert_eq!(steps[12], InitStep::Write(AUX_MU_CNTL_REG, 3));
}

#[test]
fn line_status_bits() {
    assert!(!rx_empty(0x01));
    assert!(rx_empty(0x60));
    assert!(tx_empty(0x20));
    assert!(!tx_empty(0x01));
    assert_eq!(read_byte_blocking(0x141), 0x41);
}

#[test]
fn new_line_goes_out_as_crlf() {
    assert_eq!(BlockingWriter::write_byte(b'\n'), vec![13, 10]);
    assert_eq!(BlockingWriter::write_byte(b'x'), vec![b'x']);
    assert_eq!(BlockingWriter::write("hi\n"), vec![b'h', b'i', 13, 10]);
    assert!(BlockingWriter::write("").is_empty());
}

#[test]
fn fifo_sends_in_order_when_ready() {
    let mut f = FIFOWriter::new();
    f.enqueue(b'a');
    f.enqueue(b'\n');
    assert!(f.send(false).is_empty());
    assert_eq!(f.send(true), vec![b'a']);
    assert_eq!(f.send(true), vec![13, 10]);
    assert!(f.send(true).is_empty());
    assert!(f.queue_empty());
    assert!(f.has_room());
}

#[test]
fn fifo_fills_up() {
    let mut f = FIFOWriter::new();
    for i in 0..100u8 {
        assert!(f.has_room());
        f.enqueue(i);
    }
    assert!(!f.has_room());
    assert_eq!(f.send(true), vec![0]);
}

#[test]
fn io_update_echoes_received_bytes() {
    let mut f = FIFOWriter::new();
    assert!(uart_io_update(&mut f, true, Some(13)).is_empty());
    assert!(uart_io_update(&mut f, false, Some(b'k' as u32)).is_empty());
    assert_eq!(uart_io_update(&mut f, true, None), vec![13, 10]);
    assert_eq!(uart_io_update(&mut f, true, None), vec![b'k']);
    assert!(uart_io_update(&mut f, true, None).is_empty());
}

#[test]
fn epd_init_sequence() {
    let mut e = Epd310Gdeq031t10::new();
    assert!(e.take_ops().is_empty());
    e.init();
    assert_eq!(
        e.take_ops(),
        vec![BusOp::Command(0), data(&[0x1e, 0x0d]), BusOp::DelayMs(1), BusOp::Command(0), data(&[0x1f, 0x0d])]
    );
}

#[test]
fn epd_power_is_switched_once() {
    let mut e = Epd310Gdeq031t10::new();
    e.power_on();
    e.power_on();
    assert_eq!(e.take_ops(), vec![BusOp::Command(0x04), BusOp::WaitWhileBusy(50)]);
    e.power_off();
    e.power_off();
    assert_eq!(e.take_ops(), vec![BusOp::Command(0x02), BusOp::WaitWhileBusy(50)]);
}

#[test]
fn epd_first_partial_refresh_is_full() {
    let mut e = Epd310Gdeq031t10::new();
    e.refresh_part(0, 0, 16, 16);
    assert_eq!(e.take_ops(), update(0x5A, 0x97, 1100, true));
}

#[test]
fn epd_partial_refresh_window() {
    let mut e = Epd310Gdeq031t10::new();
    e.refresh_full();
    e.take_ops();
    e.refresh_part(3, 5, 10, 4);
    let mut expected = vec![
        BusOp::Command(0x91),
        BusOp::Command(0x90),
        data(&[0, 0]),
        data(&[15, 0]),
        data(&[0, 0]),
        data(&[5, 0]),
        data(&[0, 0]),
        data(&[8, 0]),
        data(&[1]),
    ];
    expected.extend(update(0x79, 0xD7, 700, false));
    expected.push(BusOp::Command(0x92));
    assert_eq!(e.take_ops(), expected);
    e.refresh_part(-20, 0, 10, 10);
    e.refresh_part(0, 400, 10, 10);
    assert!(e.take_ops().is_empty());
}

#[test]
fn epd_partial_ram_area_bytes() {
    let mut e = Epd310Gdeq031t10::new();
    e.set_partial_ram_area(8, 300, 16, 20);
    assert_eq!(
        e.take_ops(),
        vec![
            BusOp::Command(0x90),
            data(&[8, 0]),
            data(&[23, 0]),
            data(&[1, 0]),
            data(&[44, 0]),
            data(&[1, 0]),
            data(&[63, 0]),
            data(&[1]),
        ]
    );
}

#[test]
fn epd_clear_screen() {
    let mut e = Epd310Gdeq031t10::new();
    e.clear_screen(0x00);
    let ops = e.take_ops();
    assert_eq!(ops.len(), 19);
    assert_eq!(ops[5], BusOp::Command(0x10));
    assert_eq!(ops[6], BusOp::Transfer(vec![0u8; BUFFER_SIZE]));
    assert_eq!(ops[7], BusOp::Command(0x13));
    assert_eq!(ops[18], BusOp::WaitWhileBusy(1100));
}

#[test]
fn epd_image_crop() {
    let bitmap = [1u8, 2, 3, 4];
    let mut e = Epd310Gdeq031t10::new();
    e.write_image(&bitmap, 0, 0, 16, 2, false, false);
    let ops = e.take_ops();
    assert_eq!(ops[0], BusOp::DelayMs(1));
    assert_eq!(image_of(&ops), vec![1, 2, 3, 4]);
    assert_eq!(ops[ops.len() - 2], BusOp::Command(0x92));
    e.write_image_again(&bitmap, 0, 0, 16, 2, true, false);
    assert_eq!(image_of(&e.take_ops()), vec![0xFE, 0xFD, 0xFC, 0xFB]);
    e.write_image(&bitmap, 0, 0, 16, 2, false, true);
    assert_eq!(image_of(&e.take_ops()), vec![3, 4, 1, 2]);
    e.write_image(&bitmap, -8, 0, 16, 2, false, false);
    assert_eq!(image_of(&e.take_ops()), vec![2, 4]);
    e.write_image(&bitmap, 240, 0, 16, 2, false, false);
    assert_eq!(e.take_ops(), vec![BusOp::DelayMs(1)]);
    e.write_image(&[], 0, 320, 16, 2, false, false);
    e.write_image_again(&[], -32, 0, 16, 2, false, false);
    e.write_image_for_full_refresh(&[], 0, 0, 0, 0, false, false);
    assert_eq!(e.take_ops(), vec![BusOp::DelayMs(1), BusOp::DelayMs(1), BusOp::DelayMs(1), BusOp::DelayMs(1)]);
}

#[test]
fn epd_full_refresh_image_goes_to_both_memories() {
    let bitmap = [0xAAu8; 4];
    let mut e = Epd310Gdeq031t10::new();
    e.write_image_for_full_refresh(&bitmap, 8, 8, 16, 2, false, false);
    let ops = e.take_ops();
    let images = ops.iter().filter(|o| matches!(o, BusOp::Image(_))).count();
    assert_eq!(images, 2);
    assert!(ops.contains(&BusOp::Command(0x10)));
    assert!(ops.contains(&BusOp::Command(0x13)));
}

#[test]
fn epd_screen_buffer_writes() {
    let mut e = Epd310Gdeq031t10::new();
    e.write_screen_buffer_again(0x55);
    let ops = e.take_ops();
    assert_eq!(ops.len(), 7);
    assert_eq!(ops[5], BusOp::Command(0x10));
    assert_eq!(ops[6], BusOp::Transfer(vec![0x55u8; BUFFER_SIZE]));
    e.write_screen_buffer(0x11);
    assert_eq!(e.take_ops().len(), 14);
}

#[test]
fn epd_page_buffer() {
    let mut e = Epd310Gdeq031t10::new();
    e.fill_screen(0x0F);
    assert!(e.buffer.iter().all(|b| *b == 0x0F));
    e.first_page();
    assert!(e.buffer.iter().all(|b| *b == 0xFF));
    e.draw();
    assert_eq!(e.buffer[49], 0xFF);
    assert_eq!(e.buffer[50], 0x00);
    assert_eq!(e.buffer[3999], 0x00);
    assert_eq!(e.buffer[4000], 0xFF);
    e.set_rotation(5);
    e.set_full_window();
    assert!(e.take_ops().is_empty());
}

#[test]
fn epd_next_page() {
    let mut e = Epd310Gdeq031t10::new();
    e.set_rotation(1);
    e.set_full_window();
    e.first_page();
    e.fill_screen(0x00);
    assert!(!e.next_page());
    let ops = e.take_ops();
    assert_eq!(ops[0], BusOp::Log("not partial mode"));
    assert_eq!(ops[ops.len() - 1], BusOp::Log("powered off"));
    assert!(ops.contains(&BusOp::Log("wrote screen for full refresh")));
    assert_eq!(image_of(&ops), vec![0u8; BUFFER_SIZE]);
}

#[test]
fn uc8253_init_and_frame() {
    let mut d = display::EPDisplay::new();
    d.init();
    let ops = d.take_ops();
    assert_eq!(ops.len(), 17);
    assert_eq!(ops[0], BusOp::DelayMs(2));
    assert_eq!(ops[1], BusOp::Command(0x01));
    assert_eq!(ops[2], data(&[0x03, 0x10, 0x3F, 0x3F, 0x0D]));
    assert_eq!(ops[12], BusOp::Data(vec![0u8; BUFFER_SIZE]));
    assert_eq!(ops[16], BusOp::BusyWait);
    d.write_command(0x50);
    d.write_data(&[0xD7]);
    d.display_frame(&[1, 2]);
    assert_eq!(
        d.take_ops(),
        vec![
            BusOp::Command(0x50),
            data(&[0xD7]),
            BusOp::Command(0x10),
            data(&[1, 2]),
            BusOp::Command(0x12),
            BusOp::BusyWait,
        ]
    );
}

#[test]
fn epdisplay_clear_and_fill() {
    let mut d = epdisplay::EPDisplay::new();
    d.clear(Colour::WHITE);
    let ops = d.take_ops();
    assert_eq!(ops.len(), 20);
    assert_eq!(ops[2], BusOp::DelayMs(10));
    assert_eq!(ops[5], BusOp::Command(0x10));
    assert_eq!(ops[6], BusOp::Data(vec![0xFFu8; BUFFER_SIZE]));
    assert_eq!(ops[7], BusOp::Command(0x13));
    assert_eq!(ops[19], BusOp::BusyWait);
    d.write_fill(TargetBuf::Next, 7);
    assert_eq!(d.take_ops(), vec![BusOp::Command(0x13), BusOp::Data(vec![7u8; BUFFER_SIZE])]);
    d.full_refresh();
    assert_eq!(d.take_ops().len(), 11);
    assert_eq!(Colour::BLACK.byte(), 0x00);
    assert_eq!(TargetBuf::Previous.command(), 0x10);
}

#[test]
fn display_errors_keep_the_debug_text() {
    match display::DisplayError::from_debug("bus fault") {
        display::DisplayError::General(s) => assert_eq!(s, "\"bus fault\""),
    }
    match epdisplay::DisplayError::from_debug(42u8) {
        epdisplay::DisplayError::General(s) => assert_eq!(s, "42"),
    }
}
