use vstd::prelude::*;

verus! {

pub const WIDTH: u16 = 240;
pub const HEIGHT: u16 = 320;

/// Bytes in a full frame, one bit per pixel.
pub const BUFFER_SIZE: usize = 9600;

pub const FULL_REFRESH_TIME_MS: u32 = 1100;
pub const POWER_ON_TIME_MS: u32 = 50;
pub const POWER_OFF_TIME_MS: u32 = 50;
pub const PARTIAL_REFRESH_TIME_MS: u32 = 700;

/// Size of the pieces in which image data goes out, with a yield after each.
pub const CHUNK: usize = 1024;

/// Colour of a byte of eight pixels.
pub const BLACK: u8 = 0x00;
pub const WHITE: u8 = 0xFF;

/// One operation on the panel's bus.
#[derive(Debug, PartialEq, Eq)]
pub enum BusOp {
    /// Data/command line low, the byte, data/command line high.
    Command(u8),
    /// Data/command line high, then the bytes.
    Data(Vec<u8>),
    /// The bytes, in one transfer.
    Transfer(Vec<u8>),
    /// Image bytes, in transfers of `CHUNK` bytes, yielding to the scheduler after each.
    Image(Vec<u8>),
    /// Poll the busy line until it drops, for at most this many milliseconds.
    WaitWhileBusy(u32),
    /// Sleep this many milliseconds.
    DelayMs(u32),
    /// Poll the busy line every 10 ms until it drops, however long that takes.
    BusyWait,
    /// A progress message for the caller's logger.
    Log(&'static str),
}

/// A bus operation with its bytes as a sequence.
pub enum BusOpView {
    Command(u8),
    Data(Seq<u8>),
    Transfer(Seq<u8>),
    Image(Seq<u8>),
    WaitWhileBusy(u32),
    DelayMs(u32),
    BusyWait,
    Log(&'static str),
}

impl View for BusOp {
    type V = BusOpView;

    open spec fn view(&self) -> BusOpView {
        match self {
            BusOp::Command(c) => BusOpView::Command(*c),
            BusOp::Data(d) => BusOpView::Data(d@),
            BusOp::Transfer(d) => BusOpView::Transfer(d@),
            BusOp::Image(d) => BusOpView::Image(d@),
            BusOp::WaitWhileBusy(t) => BusOpView::WaitWhileBusy(*t),
            BusOp::DelayMs(t) => BusOpView::DelayMs(*t),
            BusOp::BusyWait => BusOpView::BusyWait,
            BusOp::Log(s) => BusOpView::Log(*s),
        }
    }
}

/// The driver's state as plain values, with the operations it has issued so far.
pub struct EpdView {
    pub rotation: u8,
    pub power_is_on: bool,
    pub init_display_done: bool,
    pub initial_refresh: bool,
    pub initial_write: bool,
    pub using_partial_mode: bool,
    pub partial_dimensions: (i16, i16, i16, i16),
    pub buffer: Seq<u8>,
    pub ops: Seq<BusOpView>,
}

pub open spec fn cmd(c: u8) -> Seq<BusOpView> {
    seq![BusOpView::Command(c)]
}

pub open spec fn cmd_data(c: u8, d: u8) -> Seq<BusOpView> {
    seq![BusOpView::Command(c), BusOpView::Data(seq![d])]
}

/// Panel setting, soft reset then main setting.
pub open spec fn init_ops() -> Seq<BusOpView> {
    seq![
        BusOpView::Command(0x00),
        BusOpView::Data(seq![0x1eu8, 0x0du8]),
        BusOpView::DelayMs(1),
        BusOpView::Command(0x00),
        BusOpView::Data(seq![0x1fu8, 0x0du8]),
    ]
}

/// Power on, when the panel is off.
pub open spec fn power_on_ops(power_is_on: bool) -> Seq<BusOpView> {
    if power_is_on {
        Seq::empty()
    } else {
        seq![BusOpView::Command(0x04), BusOpView::WaitWhileBusy(POWER_ON_TIME_MS)]
    }
}

/// Power off, when the panel is on.
pub open spec fn power_off_ops(power_is_on: bool) -> Seq<BusOpView> {
    if power_is_on {
        seq![BusOpView::Command(0x02), BusOpView::WaitWhileBusy(POWER_OFF_TIME_MS)]
    } else {
        Seq::empty()
    }
}

/// A refresh: cascade setting, forced temperature `temp`, VCOM and data interval `vcom`, power
/// on, display refresh, then a wait of `wait` ms.
pub open spec fn update_ops(power_is_on: bool, temp: u8, vcom: u8, wait: u32) -> Seq<BusOpView> {
    cmd_data(0xE0, 0x02) + cmd_data(0xE5, temp) + cmd_data(0x50, vcom) + power_on_ops(power_is_on)
        + seq![BusOpView::Command(0x12), BusOpView::WaitWhileBusy(wait)]
}

pub open spec fn update_full_ops(power_is_on: bool) -> Seq<BusOpView> {
    update_ops(power_is_on, 0x5A, 0x97, FULL_REFRESH_TIME_MS)
}

pub open spec fn update_part_ops(power_is_on: bool) -> Seq<BusOpView> {
    update_ops(power_is_on, 0x79, 0xD7, PARTIAL_REFRESH_TIME_MS)
}

/// The two bytes of `v`, low byte first.
pub open spec fn u16_bytes(v: u16) -> Seq<u8> {
    seq![(v % 256) as u8, (v / 256) as u8]
}

/// Setting the partial RAM window to `w` by `h` pixels at (`x`, `y`), widened to whole bytes.
pub open spec fn ram_area_ops(x: u16, y: u16, w: u16, h: u16) -> Seq<BusOpView> {
    let xe = ((x + w - 1) as u16) | 0x0007u16;
    let ye = (y + h - 1) as u16;
    let xs = x & 0xFFF8u16;
    seq![
        BusOpView::Command(0x90),
        BusOpView::Data(u16_bytes(xs)),
        BusOpView::Data(u16_bytes(xe)),
        BusOpView::Data(u16_bytes((y / 256) as u16)),
        BusOpView::Data(u16_bytes((y % 256) as u16)),
        BusOpView::Data(u16_bytes((ye / 256) as u16)),
        BusOpView::Data(u16_bytes((ye % 256) as u16)),
        BusOpView::Data(seq![0x01u8]),
    ]
}

/// Rust's remainder of `v` by 8: the sign follows `v`.
pub open spec fn rem8(v: int) -> int {
    if v >= 0 {
        v % 8
    } else {
        -((-v) % 8)
    }
}

/// The part of the window `w` by `h` at (`x`, `y`) that lies on the screen, widened to whole
/// bytes, as (x, y, w, h); `None` when nothing of it is on the screen.
pub open spec fn clip_window(x: int, y: int, w: int, h: int) -> Option<(int, int, int, int)> {
    let w0 = if x < 0 { w + x } else { w };
    let h0 = if y < 0 { h + y } else { h };
    let x1 = if x < 0 { 0 } else { x };
    let y1 = if y < 0 { 0 } else { y };
    let w1 = if x1 + w0 < WIDTH { w0 } else { WIDTH - x1 };
    let h1 = if y1 + h0 < HEIGHT { h0 } else { HEIGHT - y1 };
    if w1 <= 0 || h1 <= 0 {
        None
    } else {
        let w2 = w1 + x1 % 8;
        let w3 = if w2 % 8 > 0 { w2 + 8 - w2 % 8 } else { w2 };
        Some((x1 - x1 % 8, y1, w3, h1))
    }
}

/// A partial refresh of the window `w` by `h` at (`x`, `y`), after the first full refresh.
pub open spec fn refresh_part_ops(power_is_on: bool, x: int, y: int, w: int, h: int) -> Seq<
    BusOpView,
> {
    match clip_window(x, y, w, h) {
        None => Seq::empty(),
        Some(win) => cmd(0x91) + ram_area_ops(win.0 as u16, win.1 as u16, win.2 as u16, win.3 as u16)
            + update_part_ops(power_is_on) + cmd(0x92),
    }
}

pub(crate) fn bytes1(a: u8) -> (r: Vec<u8>)
    ensures
        r@ == seq![a],
{
    let mut v: Vec<u8> = Vec::new();
    v.push(a);
    assert(v@ =~= seq![a]);
    v
}

pub(crate) fn bytes2(a: u8, b: u8) -> (r: Vec<u8>)
    ensures
        r@ == seq![a, b],
{
    let mut v: Vec<u8> = Vec::new();
    v.push(a);
    v.push(b);
    assert(v@ =~= seq![a, b]);
    v
}

/// `n` copies of `v`.
pub open spec fn filled(n: nat, v: u8) -> Seq<u8> {
    Seq::new(n, |i: int| v)
}

/// The state `s` with `o` issued after its operations.
pub open spec fn add_ops(s: EpdView, o: Seq<BusOpView>) -> EpdView {
    EpdView { ops: s.ops + o, ..s }
}

pub open spec fn init_effect(s: EpdView) -> EpdView {
    EpdView { ops: s.ops + init_ops(), power_is_on: false, init_display_done: true, ..s }
}

pub open spec fn refresh_full_effect(s: EpdView) -> EpdView {
    EpdView {
        ops: s.ops + update_full_ops(s.power_is_on),
        power_is_on: true,
        init_display_done: false,
        initial_refresh: false,
        ..s
    }
}

pub open spec fn update_part_effect(s: EpdView) -> EpdView {
    EpdView {
        ops: s.ops + update_part_ops(s.power_is_on),
        power_is_on: true,
        init_display_done: false,
        ..s
    }
}

pub open spec fn power_off_effect(s: EpdView) -> EpdView {
    EpdView { ops: s.ops + power_off_ops(s.power_is_on), power_is_on: false, ..s }
}

/// A partial refresh of the window `w` by `h` at (`x`, `y`); a full one before the first full
/// refresh.
pub open spec fn refresh_part_effect(s: EpdView, x: int, y: int, w: int, h: int) -> EpdView {
    if s.initial_refresh {
        refresh_full_effect(s)
    } else {
        match clip_window(x, y, w, h) {
            None => s,
            Some(win) => add_ops(
                update_part_effect(
                    add_ops(
                        s,
                        cmd(0x91) + ram_area_ops(win.0 as u16, win.1 as u16, win.2 as u16, win.3 as u16),
                    ),
                ),
                cmd(0x92),
            ),
        }
    }
}

/// Fill the panel memory selected by `command` with `value`, initialising the panel first when
/// needed.
pub open spec fn screen_buffer_effect(s: EpdView, command: u8, value: u8) -> EpdView {
    let s1 = if !s.init_display_done {
        init_effect(s)
    } else {
        s
    };
    add_ops(
        s1,
        cmd(command) + seq![BusOpView::Transfer(filled(BUFFER_SIZE as nat, value))],
    )
}

pub open spec fn clear_screen_effect(s: EpdView, value: u8) -> EpdView {
    refresh_full_effect(screen_buffer_effect(screen_buffer_effect(s, 0x10, value), 0x13, value))
}

pub open spec fn write_screen_buffer_effect(s: EpdView, value: u8) -> EpdView {
    if s.initial_write {
        clear_screen_effect(s, value)
    } else {
        screen_buffer_effect(s, 0x13, value)
    }
}

/// Rust's quotient of `v` by 8: rounded toward zero.
pub open spec fn div8(v: int) -> int {
    if v >= 0 {
        v / 8
    } else {
        -((-v) / 8)
    }
}

/// Where an image `w` by `h` at (`x`, `y`) lands on the screen, with x and w widened to whole
/// bytes: (x1, y1, w1, h1, dx, dy, wb), the window on the screen, the offset of its corner into
/// the image and the image's bytes per row. `None` when nothing of it is on the screen.
pub open spec fn image_window(x: int, y: int, w: int, h: int) -> Option<(int, int, int, int, int, int, int)> {
    let wb = div8(w + 7);
    let xa = x - rem8(x);
    let wa = wb * 8;
    let x1 = if xa < 0 { 0 } else { xa };
    let y1 = if y < 0 { 0 } else { y };
    let w0 = if xa + wa < WIDTH { wa } else { WIDTH - xa };
    let h0 = if y + h < HEIGHT { h } else { HEIGHT - y };
    let dx = x1 - xa;
    let dy = y1 - y;
    let w1 = w0 - dx;
    let h1 = h0 - dy;
    if w1 <= 0 || h1 <= 0 {
        None
    } else {
        Some((x1, y1, w1, h1, dx, dy, wb))
    }
}

/// Byte `j` of row `i` of the window, taken from the image and inverted if asked.
pub open spec fn image_byte(
    bitmap: Seq<u8>,
    g: (int, int, int, int, int, int, int),
    h: int,
    i: int,
    j: int,
    invert: bool,
    mirror_y: bool,
) -> u8 {
    let row = if mirror_y { h - 1 - (i + g.5) } else { i + g.5 };
    let b = bitmap[j + g.4 / 8 + row * g.6];
    if invert {
        !b
    } else {
        b
    }
}

/// Row `i` of the window.
pub open spec fn image_row(
    bitmap: Seq<u8>,
    g: (int, int, int, int, int, int, int),
    h: int,
    i: int,
    invert: bool,
    mirror_y: bool,
) -> Seq<u8> {
    Seq::new((g.2 / 8) as nat, |j: int| image_byte(bitmap, g, h, i, j, invert, mirror_y))
}

/// The first `n` rows of the window, in order.
pub open spec fn image_rows(
    bitmap: Seq<u8>,
    g: (int, int, int, int, int, int, int),
    h: int,
    n: nat,
    invert: bool,
    mirror_y: bool,
) -> Seq<u8>
    decreases n,
{
    if n == 0 {
        Seq::empty()
    } else {
        image_rows(bitmap, g, h, (n - 1) as nat, invert, mirror_y) + image_row(
            bitmap,
            g,
            h,
            n - 1,
            invert,
            mirror_y,
        )
    }
}

/// Write an image `w` by `h` at (`x`, `y`) into the panel memory selected by `command`: the part
/// of it on the screen, through a partial window.
pub open spec fn image_effect(
    s: EpdView,
    command: u8,
    bitmap: Seq<u8>,
    x: int,
    y: int,
    w: int,
    h: int,
    invert: bool,
    mirror_y: bool,
) -> EpdView {
    let s0 = add_ops(s, seq![BusOpView::DelayMs(1)]);
    match image_window(x, y, w, h) {
        None => s0,
        Some(g) => {
            let s1 = if !s0.init_display_done {
                init_effect(s0)
            } else {
                s0
            };
            let s2 = if s1.initial_write {
                write_screen_buffer_effect(s1, 0xFF)
            } else {
                s1
            };
            add_ops(
                s2,
                cmd(0x91) + ram_area_ops(g.0 as u16, g.1 as u16, g.2 as u16, g.3 as u16) + cmd(command)
                    + seq![BusOpView::Image(image_rows(bitmap, g, h, g.3 as nat, invert, mirror_y))]
                    + cmd(0x92) + seq![BusOpView::DelayMs(1)],
            )
        },
    }
}

/// The window used by the driver when it draws the whole screen.
pub open spec fn full_window() -> (i16, i16, i16, i16) {
    (0, 0, 240, 320)
}

pub open spec fn log(s: EpdView, m: &'static str) -> EpdView {
    add_ops(s, seq![BusOpView::Log(m)])
}

/// One page of output: the frame buffer written to the panel and shown, through the partial
/// window when the driver is in partial mode, with a full refresh otherwise.
pub open spec fn next_page_effect(s: EpdView) -> EpdView {
    let (x, y, w, h) = s.partial_dimensions;
    let (xi, yi, wi, hi) = (x as int, y as int, w as int, h as int);
    let b = s.buffer;
    if s.using_partial_mode {
        let s1 = image_effect(log(s, "using partial mode"), 0x13, b, xi, yi, wi, hi, false, false);
        let s2 = refresh_part_effect(s1, xi, yi, wi, hi);
        image_effect(s2, 0x10, b, xi, yi, wi, hi, false, false)
    } else {
        let s1 = log(s, "not partial mode");
        let s2 = image_effect(
            image_effect(s1, 0x10, b, 0, 0, 240, 320, false, false),
            0x13,
            b,
            0,
            0,
            240,
            320,
            false,
            false,
        );
        let s3 = refresh_full_effect(log(s2, "wrote screen for full refresh"));
        let s4 = image_effect(log(s3, "did refresh full"), 0x10, b, xi, yi, wi, hi, false, false);
        log(power_off_effect(log(s4, "wrote image again")), "powered off")
    }
}

/// Whether `bitmap` holds every byte of an image `w` by `h`, rows padded to whole bytes.
pub open spec fn bitmap_fits(bitmap: Seq<u8>, w: int, h: int) -> bool {
    w <= 0 || h <= 0 || bitmap.len() >= div8(w + 7) * h
}

fn rem8_exec(v: i32) -> (r: i32)
    requires
        -0x100000 <= v <= 0x100000,
    ensures
        r == rem8(v as int),
        -8 < r < 8,
{
    if v >= 0 {
        v % 8
    } else {
        -((-v) % 8)
    }
}

fn clip_window_exec(x: i32, y: i32, w: i32, h: i32) -> (r: Option<(i32, i32, i32, i32)>)
    requires
        -0x8000 <= x < 0x8000,
        -0x8000 <= y < 0x8000,
        -0x8000 <= w < 0x8000,
        -0x8000 <= h < 0x8000,
    ensures
        r is None <==> clip_window(x as int, y as int, w as int, h as int) is None,
        r is Some ==> {
            let (a, b, c, d) = r->Some_0;
            clip_window(x as int, y as int, w as int, h as int) == Some(
                (a as int, b as int, c as int, d as int),
            ) && 0 <= a < 240 && 0 <= b < 320 && 1 <= c <= 256 && 1 <= d <= 320
        },
{
    let w0 = if x < 0 { w + x } else { w };
    let h0 = if y < 0 { h + y } else { h };
    let x1 = if x < 0 { 0 } else { x };
    let y1 = if y < 0 { 0 } else { y };
    let w1 = if x1 + w0 < WIDTH as i32 { w0 } else { WIDTH as i32 - x1 };
    let h1 = if y1 + h0 < HEIGHT as i32 { h0 } else { HEIGHT as i32 - y1 };
    if w1 <= 0 || h1 <= 0 {
        return None;
    }
    let w2 = w1 + x1 % 8;
    let w3 = if w2 % 8 > 0 { w2 + 8 - w2 % 8 } else { w2 };
    Some((x1 - x1 % 8, y1, w3, h1))
}

fn div8_exec(v: i32) -> (r: i32)
    requires
        -0x100000 <= v <= 0x100000,
    ensures
        r == div8(v as int),
{
    if v >= 0 {
        v / 8
    } else {
        -((-v) / 8)
    }
}

fn image_window_exec(x: i32, y: i32, w: i32, h: i32) -> (r: Option<(i32, i32, i32, i32, i32, i32, i32)>)
    requires
        -0x8000 <= x < 0x8000,
        -0x8000 <= y < 0x8000,
        -0x8000 <= w < 0x8000,
        -0x8000 <= h < 0x8000,
    ensures
        r is None <==> image_window(x as int, y as int, w as int, h as int) is None,
        r is Some ==> {
            let g = r->Some_0;
            &&& image_window(x as int, y as int, w as int, h as int) == Some(
                (g.0 as int, g.1 as int, g.2 as int, g.3 as int, g.4 as int, g.5 as int, g.6 as int),
            )
            &&& image_window_ok(g, h as int)
        },
{
    let wb = div8_exec(w + 7);
    let xa = x - rem8_exec(x);
    let wa = wb * 8;
    let x1 = if xa < 0 { 0 } else { xa };
    let y1 = if y < 0 { 0 } else { y };
    let w0 = if xa + wa < WIDTH as i32 { wa } else { WIDTH as i32 - xa };
    let h0 = if y + h < HEIGHT as i32 { h } else { HEIGHT as i32 - y };
    let dx = x1 - xa;
    let dy = y1 - y;
    let w1 = w0 - dx;
    let h1 = h0 - dy;
    if w1 <= 0 || h1 <= 0 {
        return None;
    }
    assert(xa % 8 == 0);
    Some((x1, y1, w1, h1, dx, dy, wb))
}

/// The facts about a landed image window that cropping relies on.
pub open spec fn image_window_ok(g: (i32, i32, i32, i32, i32, i32, i32), h: int) -> bool {
    let (x1, y1, w1, h1, dx, dy, wb) = g;
    &&& 0 <= x1 < 240 && 0 <= y1 < 320 && 1 <= w1 <= 240 && 1 <= h1 <= 320
    &&& w1 % 8 == 0 && dx % 8 == 0 && dx >= 0 && dy >= 0
    &&& 0 < wb <= 4096 && w1 + dx <= wb * 8 && h1 + dy <= h && h < 0x8000
}

fn crop_image(
    bitmap: &[u8],
    g: (i32, i32, i32, i32, i32, i32, i32),
    h: i32,
    invert: bool,
    mirror_y: bool,
) -> (r: Vec<u8>)
    requires
        image_window_ok(g, h as int),
        bitmap@.len() >= g.6 * h,
    ensures
        r@ == image_rows(
            bitmap@,
            (g.0 as int, g.1 as int, g.2 as int, g.3 as int, g.4 as int, g.5 as int, g.6 as int),
            h as int,
            g.3 as nat,
            invert,
            mirror_y,
        ),
{
    let ghost gi = (g.0 as int, g.1 as int, g.2 as int, g.3 as int, g.4 as int, g.5 as int, g.6 as int);
    let (x1, y1, w1, h1, dx, dy, wb) = g;
    let bpr = w1 / 8;
    let mut out: Vec<u8> = Vec::new();
    let mut i: i32 = 0;
    while i < h1
        invariant
            0 <= i <= h1,
            image_window_ok(g, h as int),
            (x1, y1, w1, h1, dx, dy, wb) == g,
            gi == (g.0 as int, g.1 as int, g.2 as int, g.3 as int, g.4 as int, g.5 as int, g.6 as int),
            bpr == w1 / 8,
            bitmap@.len() >= wb * h,
            out@ == image_rows(bitmap@, gi, h as int, i as nat, invert, mirror_y),
        decreases h1 - i,
    {
        let row = if mirror_y { h - 1 - (i + dy) } else { i + dy };
        let ghost before = out@;
        let ghost full_row = image_row(bitmap@, gi, h as int, i as int, invert, mirror_y);
        assert(before + full_row.take(0) =~= before);
        let mut j: i32 = 0;
        while j < bpr
            invariant
                0 <= j <= bpr,
                0 <= row < h,
                0 <= i < h1,
                image_window_ok(g, h as int),
                (x1, y1, w1, h1, dx, dy, wb) == g,
                gi == (g.0 as int, g.1 as int, g.2 as int, g.3 as int, g.4 as int, g.5 as int, g.6 as int),
                bpr == w1 / 8,
                bitmap@.len() >= wb * h,
                row == if mirror_y { h - 1 - (i + dy) } else { i + dy },
                full_row == image_row(bitmap@, gi, h as int, i as int, invert, mirror_y),
                out@ == before + full_row.take(j as int),
            decreases bpr - j,
        {
            assert(j + dx / 8 < wb);
            assert(row * wb + wb <= wb * h && row * wb <= 0x8000 * 4096) by (nonlinear_arith)
                requires
                    0 <= row < h,
                    h < 0x8000,
                    0 < wb <= 4096,
            ;
            let idx = j + dx / 8 + row * wb;
            assert(0 <= idx < bitmap@.len());
            let mut data = bitmap[idx as usize];
            if invert {
                data = !data;
            }
            assert(gi.4 / 8 == (dx / 8) as int);
            assert(gi.6 == wb as int);
            assert(gi.5 == dy as int);
            assert((if mirror_y { h - 1 - (i + gi.5) } else { i + gi.5 }) == row as int);
            assert(j + gi.4 / 8 + row * gi.6 == idx as int);
            assert(data == image_byte(bitmap@, gi, h as int, i as int, j as int, invert, mirror_y));
            assert(full_row[j as int] == data);
            out.push(data);
            assert(full_row.take(j + 1) =~= full_row.take(j as int).push(data));
            j = j + 1;
        }
        assert(full_row.len() == bpr);
        assert(full_row.take(bpr as int) =~= full_row);
        assert(out@ =~= image_rows(bitmap@, gi, h as int, (i + 1) as nat, invert, mirror_y));
        i = i + 1;
    }
    out
}

/// The operations issued to a panel's bus so far, oldest first.
pub struct OpLog {
    ops: Vec<BusOp>,
}

impl View for OpLog {
    type V = Seq<BusOpView>;

    closed spec fn view(&self) -> Seq<BusOpView> {
        self.ops@.map_values(|o: BusOp| o@)
    }
}

impl OpLog {
    pub fn new() -> (r: OpLog)
        ensures
            r@ == Seq::<BusOpView>::empty(),
    {
        let r = OpLog { ops: Vec::new() };
        assert(r@ =~= Seq::<BusOpView>::empty());
        r
    }

    pub fn issue(&mut self, op: BusOp)
        ensures
            final(self)@ == old(self)@.push(op@),
    {
        self.ops.push(op);
        assert(self@ =~= old(self)@.push(op@));
    }

    /// Hand over the operations issued so far and start a new list.
    pub fn take(&mut self) -> (r: Vec<BusOp>)
        ensures
            r@.map_values(|o: BusOp| o@) == old(self)@,
            final(self)@ == Seq::<BusOpView>::empty(),
    {
        let mut r: Vec<BusOp> = Vec::new();
        core::mem::swap(&mut self.ops, &mut r);
        assert(self@ =~= Seq::<BusOpView>::empty());
        r
    }
}

/// Driver of the 3.1 inch GDEQ031T10 e-paper panel. It keeps the panel's state and issues the
/// operations that drive it, which the platform then carries out on the bus in order.
pub struct Epd310Gdeq031t10 {
    rotation: u8,
    power_is_on: bool,
    init_display_done: bool,
    initial_refresh: bool,
    initial_write: bool,
    using_partial_mode: bool,
    partial_dimensions: (i16, i16, i16, i16),
    pub buffer: Vec<u8>,
    ops: Vec<BusOp>,
}

impl View for Epd310Gdeq031t10 {
    type V = EpdView;

    closed spec fn view(&self) -> EpdView {
        EpdView {
            rotation: self.rotation,
            power_is_on: self.power_is_on,
            init_display_done: self.init_display_done,
            initial_refresh: self.initial_refresh,
            initial_write: self.initial_write,
            using_partial_mode: self.using_partial_mode,
            partial_dimensions: self.partial_dimensions,
            buffer: self.buffer@,
            ops: self.ops@.map_values(|o: BusOp| o@),
        }
    }
}

impl Epd310Gdeq031t10 {
    pub fn new() -> (r: Self)
        ensures
            r@ == (EpdView {
                rotation: 0,
                power_is_on: false,
                init_display_done: false,
                initial_refresh: true,
                initial_write: true,
                using_partial_mode: false,
                partial_dimensions: (0, 0, 240, 320),
                buffer: Seq::new(BUFFER_SIZE as nat, |i: int| 0xFFu8),
                ops: Seq::empty(),
            }),
            r.wf(),
    {
        let buffer = vec![0xFFu8; BUFFER_SIZE];
        let r = Epd310Gdeq031t10 {
            rotation: 0,
            power_is_on: false,
            init_display_done: false,
            initial_refresh: true,
            initial_write: true,
            using_partial_mode: false,
            partial_dimensions: (0, 0, 240, 320),
            buffer,
            ops: Vec::new(),
        };
        assert(r@.buffer =~= Seq::new(BUFFER_SIZE as nat, |i: int| 0xFFu8));
        assert(r@.ops =~= Seq::<BusOpView>::empty());
        r
    }

    /// Hand over the operations issued so far, oldest first, and start a new list.
    pub fn take_ops(&mut self) -> (r: Vec<BusOp>)
        ensures
            r@.map_values(|o: BusOp| o@) == old(self)@.ops,
            final(self)@ == (EpdView { ops: Seq::empty(), ..old(self)@ }),
    {
        let mut r: Vec<BusOp> = Vec::new();
        core::mem::swap(&mut self.ops, &mut r);
        assert(self@.ops =~= Seq::<BusOpView>::empty());
        assert(self@ == (EpdView { ops: Seq::empty(), ..old(self)@ }));
        r
    }

    fn issue(&mut self, op: BusOp)
        ensures
            final(self)@ == (EpdView { ops: old(self)@.ops.push(op@), ..old(self)@ }),
    {
        self.ops.push(op);
        assert(self@.ops =~= old(self)@.ops.push(op@));
    }

    fn write_command(&mut self, command: u8)
        ensures
            final(self)@ == (EpdView { ops: old(self)@.ops + cmd(command), ..old(self)@ }),
    {
        self.issue(BusOp::Command(command));
        assert(self@.ops =~= old(self)@.ops + cmd(command));
    }

    fn write_data(&mut self, data: &[u8])
        ensures
            final(self)@ == (EpdView {
                ops: old(self)@.ops.push(BusOpView::Data(data@)),
                ..old(self)@
            }),
    {
        let v = vstd::slice::slice_to_vec(data);
        self.issue(BusOp::Data(v));
    }

    fn write_command_data(&mut self, command: u8, d: u8)
        ensures
            final(self)@ == (EpdView { ops: old(self)@.ops + cmd_data(command, d), ..old(self)@ }),
    {
        self.issue(BusOp::Command(command));
        self.issue(BusOp::Data(bytes1(d)));
        assert(self@.ops =~= old(self)@.ops + cmd_data(command, d));
    }

    fn wait_while_busy(&mut self, timeout_ms: u32)
        ensures
            final(self)@ == (EpdView {
                ops: old(self)@.ops.push(BusOpView::WaitWhileBusy(timeout_ms)),
                ..old(self)@
            }),
    {
        self.issue(BusOp::WaitWhileBusy(timeout_ms));
    }

    /// Panel setting: soft reset, then the main setting.
    pub fn init(&mut self)
        ensures
            final(self)@ == (EpdView {
                ops: old(self)@.ops + init_ops(),
                power_is_on: false,
                init_display_done: true,
                ..old(self)@
            }),
    {
        self.issue(BusOp::Command(0x00));
        self.issue(BusOp::Data(bytes2(0x1e, 0x0d)));
        self.issue(BusOp::DelayMs(1));
        self.power_is_on = false;
        self.issue(BusOp::Command(0x00));
        self.issue(BusOp::Data(bytes2(0x1f, 0x0d)));
        self.init_display_done = true;
        assert(self@.ops =~= old(self)@.ops + init_ops());
    }

    pub fn power_on(&mut self)
        ensures
            final(self)@ == (EpdView {
                ops: old(self)@.ops + power_on_ops(old(self)@.power_is_on),
                power_is_on: true,
                ..old(self)@
            }),
    {
        if !self.power_is_on {
            self.write_command(0x04);
            self.wait_while_busy(POWER_ON_TIME_MS);
        }
        self.power_is_on = true;
        assert(self@.ops =~= old(self)@.ops + power_on_ops(old(self)@.power_is_on));
    }

    pub fn power_off(&mut self)
        ensures
            final(self)@ == (EpdView {
                ops: old(self)@.ops + power_off_ops(old(self)@.power_is_on),
                power_is_on: false,
                ..old(self)@
            }),
    {
        if self.power_is_on {
            self.write_command(0x02);
            self.wait_while_busy(POWER_OFF_TIME_MS);
        }
        self.power_is_on = false;
        assert(self@.ops =~= old(self)@.ops + power_off_ops(old(self)@.power_is_on));
    }

    fn update(&mut self, temp: u8, vcom: u8, wait: u32)
        ensures
            final(self)@ == (EpdView {
                ops: old(self)@.ops + update_ops(old(self)@.power_is_on, temp, vcom, wait),
                power_is_on: true,
                init_display_done: false,
                ..old(self)@
            }),
    {
        self.write_command_data(0xE0, 0x02);
        self.write_command_data(0xE5, temp);
        self.write_command_data(0x50, vcom);
        self.power_on();
        self.write_command(0x12);
        self.wait_while_busy(wait);
        self.init_display_done = false;
        assert(self@.ops =~= old(self)@.ops + update_ops(old(self)@.power_is_on, temp, vcom, wait));
    }

    /// Full refresh of the panel.
    pub fn update_full(&mut self)
        ensures
            final(self)@ == (EpdView {
                ops: old(self)@.ops + update_full_ops(old(self)@.power_is_on),
                power_is_on: true,
                init_display_done: false,
                ..old(self)@
            }),
    {
        self.update(0x5A, 0x97, FULL_REFRESH_TIME_MS);
    }

    /// Partial refresh of the panel.
    pub fn update_part(&mut self)
        ensures
            final(self)@ == (EpdView {
                ops: old(self)@.ops + update_part_ops(old(self)@.power_is_on),
                power_is_on: true,
                init_display_done: false,
                ..old(self)@
            }),
    {
        self.update(0x79, 0xD7, PARTIAL_REFRESH_TIME_MS);
    }

    pub fn refresh_full(&mut self)
        ensures
            final(self)@ == (EpdView {
                ops: old(self)@.ops + update_full_ops(old(self)@.power_is_on),
                power_is_on: true,
                init_display_done: false,
                initial_refresh: false,
                ..old(self)@
            }),
    {
        self.update_full();
        self.initial_refresh = false;
    }

    /// Set the partial RAM window to `w` by `h` pixels at (`x`, `y`), widened to whole bytes.
    pub fn set_partial_ram_area(&mut self, x: u16, y: u16, w: u16, h: u16)
        requires
            1 <= x + w <= 0x10000,
            1 <= y + h <= 0x10000,
        ensures
            final(self)@ == (EpdView { ops: old(self)@.ops + ram_area_ops(x, y, w, h), ..old(self)@ }),
    {
        let xe = ((x as u32 + w as u32 - 1) as u16) | 0x0007;
        let ye = (y as u32 + h as u32 - 1) as u16;
        let xs = x & 0xFFF8;
        self.write_command(0x90);
        self.issue(BusOp::Data(bytes2((xs % 256) as u8, (xs / 256) as u8)));
        self.issue(BusOp::Data(bytes2((xe % 256) as u8, (xe / 256) as u8)));
        let a = y / 256;
        let b = y % 256;
        let c = ye / 256;
        let d = ye % 256;
        self.issue(BusOp::Data(bytes2((a % 256) as u8, (a / 256) as u8)));
        self.issue(BusOp::Data(bytes2((b % 256) as u8, (b / 256) as u8)));
        self.issue(BusOp::Data(bytes2((c % 256) as u8, (c / 256) as u8)));
        self.issue(BusOp::Data(bytes2((d % 256) as u8, (d / 256) as u8)));
        self.issue(BusOp::Data(bytes1(0x01)));
        assert(self@.ops =~= old(self)@.ops + ram_area_ops(x, y, w, h));
    }
}

impl Epd310Gdeq031t10 {
    /// The frame buffer holds a full frame and the partial window covers the screen.
    pub closed spec fn wf(&self) -> bool {
        self.buffer@.len() == BUFFER_SIZE && self.partial_dimensions == full_window()
    }

    pub fn set_rotation(&mut self, rot: u8)
        ensures
            final(self)@ == (EpdView { rotation: rot % 4, ..old(self)@ }),
            old(self).wf() ==> final(self).wf(),
    {
        self.rotation = rot % 4;
    }

    /// Fill the frame buffer with `val`.
    pub fn fill_screen(&mut self, val: u8)
        ensures
            final(self)@ == (EpdView { buffer: filled(BUFFER_SIZE as nat, val), ..old(self)@ }),
            old(self).wf() ==> final(self).wf(),
    {
        self.buffer = vec![val; BUFFER_SIZE];
        assert(self@.buffer =~= filled(BUFFER_SIZE as nat, val));
    }

    /// Start a page: a white frame buffer.
    pub fn first_page(&mut self)
        ensures
            final(self)@ == (EpdView { buffer: filled(BUFFER_SIZE as nat, WHITE), ..old(self)@ }),
            old(self).wf() ==> final(self).wf(),
    {
        self.fill_screen(WHITE);
    }

    /// Draw the test pattern: bytes 50 to 3999 of the frame buffer black.
    pub fn draw(&mut self)
        requires
            old(self).wf(),
        ensures
            final(self).wf(),
            final(self)@ == (EpdView {
                buffer: Seq::new(
                    BUFFER_SIZE as nat,
                    |i: int| if 50 <= i < 4000 { BLACK } else { old(self)@.buffer[i] },
                ),
                ..old(self)@
            }),
    {
        let mut i: usize = 50;
        while i < 4000
            invariant
                50 <= i <= 4000,
                self.buffer@.len() == BUFFER_SIZE,
                self.partial_dimensions == old(self).partial_dimensions,
                self@ == (EpdView { buffer: self.buffer@, ..old(self)@ }),
                forall|k: int|
                    0 <= k < BUFFER_SIZE ==> #[trigger] self.buffer@[k] == if 50 <= k < i {
                        BLACK
                    } else {
                        old(self)@.buffer[k]
                    },
            decreases 4000 - i,
        {
            self.buffer.set(i, BLACK);
            i = i + 1;
        }
        assert(self@.buffer =~= Seq::new(
            BUFFER_SIZE as nat,
            |i: int| if 50 <= i < 4000 { BLACK } else { old(self)@.buffer[i] },
        ));
    }

    /// Draw the whole screen from now on.
    pub fn set_full_window(&mut self)
        ensures
            final(self)@ == (EpdView {
                using_partial_mode: false,
                partial_dimensions: full_window(),
                ..old(self)@
            }),
            old(self)@.buffer.len() == BUFFER_SIZE ==> final(self).wf(),
    {
        self.using_partial_mode = false;
        self.partial_dimensions = (0, 0, 240, 320);
    }

    fn log(&mut self, m: &'static str)
        ensures
            final(self)@ == log(old(self)@, m),
    {
        self.issue(BusOp::Log(m));
        assert(self@.ops =~= log(old(self)@, m).ops);
    }

    /// Show the frame buffer on the panel. There is a single page, so the answer to whether
    /// another one follows is always no.
    pub fn next_page(&mut self) -> (r: bool)
        requires
            old(self).wf(),
        ensures
            !r,
            final(self).wf(),
            final(self)@ == next_page_effect(old(self)@),
    {
        let (x, y, w, h) = self.partial_dimensions;
        let image = self.buffer.clone();
        assert(image@ =~= self.buffer@);
        assert(bitmap_fits(image@, 240, 320));
        if self.using_partial_mode {
            self.log("using partial mode");
            self.write_image(image.as_slice(), x, y, w, h, false, false);
            self.refresh_part(x, y, w, h);
            self.write_image_again(image.as_slice(), x, y, w, h, false, false);
        } else {
            self.log("not partial mode");
            self.write_image_for_full_refresh(image.as_slice(), 0, 0, 240, 320, false, false);
            self.log("wrote screen for full refresh");
            self.refresh_full();
            self.log("did refresh full");
            self.write_image_again(image.as_slice(), x, y, w, h, false, false);
            self.log("wrote image again");
            self.power_off();
            self.log("powered off");
        }
        false
    }

    /// Refresh the window `w` by `h` at (`x`, `y`) only; the first refresh is always a full one.
    pub fn refresh_part(&mut self, x: i16, y: i16, w: i16, h: i16)
        ensures
            final(self)@ == refresh_part_effect(old(self)@, x as int, y as int, w as int, h as int),
    {
        if self.initial_refresh {
            self.refresh_full();
            return;
        }
        let win = clip_window_exec(x as i32, y as i32, w as i32, h as i32);
        let (xs, y1, w3, h1) = match win {
            None => {
                return;
            },
            Some(v) => v,
        };
        let ghost s0 = self@;
        self.write_command(0x91);
        self.set_partial_ram_area(xs as u16, y1 as u16, w3 as u16, h1 as u16);
        self.update_part();
        self.write_command(0x92);
        assert(self@.ops =~= refresh_part_effect(s0, x as int, y as int, w as int, h as int).ops);
    }

    fn write_screen_buffer_with(&mut self, command: u8, value: u8)
        ensures
            final(self)@ == screen_buffer_effect(old(self)@, command, value),
    {
        if !self.init_display_done {
            self.init();
        }
        self.write_command(command);
        let data = vec![value; BUFFER_SIZE];
        assert(data@ =~= filled(BUFFER_SIZE as nat, value));
        let ghost before = self@;
        self.issue(BusOp::Transfer(data));
        assert(self@.ops =~= before.ops + seq![BusOpView::Transfer(filled(BUFFER_SIZE as nat, value))]);
        assert(self@.ops =~= screen_buffer_effect(old(self)@, command, value).ops);
    }

    /// Fill both panel memories with `value` and refresh the whole screen.
    pub fn clear_screen(&mut self, value: u8)
        ensures
            final(self)@ == clear_screen_effect(old(self)@, value),
    {
        self.write_screen_buffer_with(0x10, value);
        self.write_screen_buffer_with(0x13, value);
        self.refresh_full();
        self.initial_refresh = false;
    }

    /// Fill the panel memory of the next frame with `value`; the first write clears the screen.
    pub fn write_screen_buffer(&mut self, value: u8)
        ensures
            final(self)@ == write_screen_buffer_effect(old(self)@, value),
    {
        if self.initial_write {
            self.clear_screen(value)
        } else {
            self.write_screen_buffer_with(0x13, value)
        }
    }

    /// Fill the panel memory of the previous frame with `value`.
    pub fn write_screen_buffer_again(&mut self, value: u8)
        ensures
            final(self)@ == screen_buffer_effect(old(self)@, 0x10, value),
    {
        self.write_screen_buffer_with(0x10, value)
    }

    fn write_image_with(
        &mut self,
        command: u8,
        bitmap: &[u8],
        x: i16,
        y: i16,
        w: i16,
        h: i16,
        invert: bool,
        mirror_y: bool,
    )
        requires
            image_window(x as int, y as int, w as int, h as int) is Some ==> bitmap_fits(
                bitmap@,
                w as int,
                h as int,
            ),
        ensures
            final(self)@ == image_effect(
                old(self)@,
                command,
                bitmap@,
                x as int,
                y as int,
                w as int,
                h as int,
                invert,
                mirror_y,
            ),
    {
        self.issue(BusOp::DelayMs(1));
        let ghost s0 = self@;
        assert(s0 == add_ops(old(self)@, seq![BusOpView::DelayMs(1)])) by {
            assert(s0.ops =~= old(self)@.ops + seq![BusOpView::DelayMs(1)]);
        }
        let g = match image_window_exec(x as i32, y as i32, w as i32, h as i32) {
            None => {
                return;
            },
            Some(g) => g,
        };
        let (x1, y1, w1, h1, dx, dy, wb) = g;
        if !self.init_display_done {
            self.init();
        }
        if self.initial_write {
            self.write_screen_buffer(0xFF);
        }
        self.write_command(0x91);
        self.set_partial_ram_area(x1 as u16, y1 as u16, w1 as u16, h1 as u16);
        self.write_command(command);
        let out = crop_image(bitmap, g, h as i32, invert, mirror_y);
        self.issue(BusOp::Image(out));
        self.write_command(0x92);
        self.issue(BusOp::DelayMs(1));
        assert(self@.ops =~= image_effect(
            old(self)@,
            command,
            bitmap@,
            x as int,
            y as int,
            w as int,
            h as int,
            invert,
            mirror_y,
        ).ops);
    }

    /// Write an image into the panel memory of the next frame.
    pub fn write_image(
        &mut self,
        bitmap: &[u8],
        x: i16,
        y: i16,
        w: i16,
        h: i16,
        invert: bool,
        mirror_y: bool,
    )
        requires
            image_window(x as int, y as int, w as int, h as int) is Some ==> bitmap_fits(
                bitmap@,
                w as int,
                h as int,
            ),
        ensures
            final(self)@ == image_effect(old(self)@, 0x13, bitmap@, x as int, y as int, w as int, h as int, invert, mirror_y),
    {
        self.write_image_with(0x13, bitmap, x, y, w, h, invert, mirror_y)
    }

    /// Write an image into the panel memory of the previous frame.
    pub fn write_image_again(
        &mut self,
        bitmap: &[u8],
        x: i16,
        y: i16,
        w: i16,
        h: i16,
        invert: bool,
        mirror_y: bool,
    )
        requires
            image_window(x as int, y as int, w as int, h as int) is Some ==> bitmap_fits(
                bitmap@,
                w as int,
                h as int,
            ),
        ensures
            final(self)@ == image_effect(old(self)@, 0x10, bitmap@, x as int, y as int, w as int, h as int, invert, mirror_y),
    {
        self.write_image_with(0x10, bitmap, x, y, w, h, invert, mirror_y)
    }

    /// Write an image into both panel memories, ahead of a full refresh.
    pub fn write_image_for_full_refresh(
        &mut self,
        bitmap: &[u8],
        x: i16,
        y: i16,
        w: i16,
        h: i16,
        invert: bool,
        mirror_y: bool,
    )
        requires
            image_window(x as int, y as int, w as int, h as int) is Some ==> bitmap_fits(
                bitmap@,
                w as int,
                h as int,
            ),
        ensures
            final(self)@ == image_effect(
                image_effect(old(self)@, 0x10, bitmap@, x as int, y as int, w as int, h as int, invert, mirror_y),
                0x13,
                bitmap@,
                x as int,
                y as int,
                w as int,
                h as int,
                invert,
                mirror_y,
            ),
    {
        self.write_image_with(0x10, bitmap, x, y, w, h, invert, mirror_y);
        self.write_image_with(0x13, bitmap, x, y, w, h, invert, mirror_y);
    }
}

} // verus!
