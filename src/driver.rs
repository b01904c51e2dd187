//! The RM67162 panel driver: bring-up, orientation, addressing and pixel
//! transfer, each expressed as the plan of bus work that performs it.
use vstd::prelude::*;
use crate::protocol::{
    be_bytes, chunk_count, command, encode_pixels, frames, lemma_pixel_bytes_len,
    lemma_stream_carries_bytes, payload_concat, pixel_bytes, send_cmd, send_cmd_114, stream_frames,
    stream_pixels, to_be_bytes, DataPhase, Transaction, TransactionView, FLUSH_BYTES,
    MEMORY_WRITE_CONTINUE,
};

verus! {

/// Long side of the panel, in pixels.
pub const PANEL_LONG: u32 = 536;

/// Short side of the panel, in pixels.
pub const PANEL_SHORT: u32 = 240;

/// Leave sleep mode.
pub const CMD_SLEEP_OUT: u8 = 0x11;
/// Turn the display on.
pub const CMD_DISPLAY_ON: u8 = 0x29;
/// Set the column range of the addressing window.
pub const CMD_COLUMN_ADDRESS: u8 = 0x2A;
/// Set the row range of the addressing window.
pub const CMD_ROW_ADDRESS: u8 = 0x2B;
/// Start a pixel-memory write at the window's origin.
pub const CMD_MEMORY_WRITE: u8 = 0x2C;
/// Set the memory-access direction (the orientation).
pub const CMD_MEMORY_ACCESS: u8 = 0x36;
/// Select the pixel format.
pub const CMD_PIXEL_FORMAT: u8 = 0x3A;
/// Write the display brightness.
pub const CMD_BRIGHTNESS: u8 = 0x51;

/// Pixel-format value for 16 bits per pixel (5-6-5).
pub const PIXEL_FORMAT_565: u8 = 0x55;

/// Brightness written during bring-up.
pub const BRIGHTNESS: u8 = 0xD0;

/// Settle time after sleep-out and after display-on, in milliseconds.
pub const SETTLE_MS: u32 = 120;

/// Time the reset line is held low, in milliseconds.
pub const RESET_LOW_MS: u32 = 250;

/// Time allowed after the reset line is released, in milliseconds.
pub const RESET_HIGH_MS: u32 = 200;

/// Mounting orientation of the panel's addressable surface.
#[derive(Copy, Clone, Eq, PartialEq, Ord, PartialOrd, Hash, Debug, Structural)]
pub enum Orientation {
    Portrait,
    Landscape,
    PortraitFlipped,
    LandscapeFlipped,
}

/// Memory-access-direction register value of an orientation.
pub open spec fn madctr(o: Orientation) -> u8 {
    match o {
        Orientation::Portrait => 0x00,
        Orientation::PortraitFlipped => 0xC0,
        Orientation::Landscape => 0x60,
        Orientation::LandscapeFlipped => 0xA0,
    }
}

pub open spec fn is_landscape(o: Orientation) -> bool {
    o == Orientation::Landscape || o == Orientation::LandscapeFlipped
}

/// Width and height of an addressable surface, in pixels.
#[derive(Copy, Clone, Debug, PartialEq, Eq, Structural)]
pub struct Size {
    pub width: u32,
    pub height: u32,
}

/// The addressable surface of the panel in orientation `o`.
pub open spec fn size_of(o: Orientation) -> Size {
    if is_landscape(o) {
        Size { width: PANEL_LONG, height: PANEL_SHORT }
    } else {
        Size { width: PANEL_SHORT, height: PANEL_LONG }
    }
}

impl Orientation {
    /// The memory-access-direction register value for this orientation.
    pub fn to_madctr(&self) -> (r: u8)
        ensures
            r == madctr(*self),
    {
        match self {
            Orientation::Portrait => 0x00,
            Orientation::PortraitFlipped => 0b11000000,
            Orientation::Landscape => 0b01100000,
            Orientation::LandscapeFlipped => 0b10100000,
        }
    }
}

/// One step of a hardware plan.
#[derive(Clone, Debug, PartialEq, Eq)]
pub enum Step {
    /// Perform a bus transaction.
    Send(Transaction),
    /// Wait for the given number of milliseconds.
    DelayMs(u32),
    /// Drive the reset line high (`true`) or low (`false`).
    ResetLine(bool),
}

/// Mathematical value of a `Step`.
pub enum StepView {
    Send(TransactionView),
    DelayMs(u32),
    ResetLine(bool),
}

impl View for Step {
    type V = StepView;

    open spec fn view(&self) -> StepView {
        match self {
            Step::Send(t) => StepView::Send(t@),
            Step::DelayMs(ms) => StepView::DelayMs(*ms),
            Step::ResetLine(high) => StepView::ResetLine(*high),
        }
    }
}

/// The views of a sequence of steps.
pub open spec fn step_views(s: Seq<Step>) -> Seq<StepView> {
    s.map_values(|st: Step| st@)
}

/// The three commands that set the addressing window to columns
/// `x1..=x2` and rows `y1..=y2` and start a memory write.
pub open spec fn window_frames(x1: u16, y1: u16, x2: u16, y2: u16) -> Seq<TransactionView> {
    seq![
        command(DataPhase::Single, CMD_COLUMN_ADDRESS, be_bytes(x1) + be_bytes(x2)),
        command(DataPhase::Single, CMD_ROW_ADDRESS, be_bytes(y1) + be_bytes(y2)),
        command(DataPhase::Single, CMD_MEMORY_WRITE, Seq::empty()),
    ]
}

/// A 1x1 window at `(x, y)` followed by one quad-wide write of `color`.
pub open spec fn point_frames(x: u16, y: u16, color: u16) -> Seq<TransactionView> {
    window_frames(x, y, x, y).push(command(DataPhase::Quad, CMD_MEMORY_WRITE, be_bytes(color)))
}

/// Number of colors of `colors` that a `w`-by-`h` fill consumes.
pub open spec fn fill_count(w: u16, h: u16, colors: Seq<u16>) -> int {
    if colors.len() < w * h {
        colors.len() as int
    } else {
        w * h
    }
}

/// A window over the `w`-by-`h` rectangle at `(x, y)`, then the pixel
/// stream of the colors it consumes, in row-major order.
pub open spec fn fill_frames(x: u16, y: u16, w: u16, h: u16, colors: Seq<u16>) -> Seq<TransactionView> {
    window_frames(x, y, (x + w - 1) as u16, (y + h - 1) as u16)
        + stream_frames(pixel_bytes(colors.take(fill_count(w, h, colors))))
}

/// The `w`-by-`h` rectangle at `(x, y)` lies on the surface and is not empty.
pub open spec fn rect_on_surface(s: Size, x: u16, y: u16, w: u16, h: u16) -> bool {
    1 <= w && 1 <= h && x + w <= s.width && y + h <= s.height
}

/// The bring-up sequence for a panel in orientation `o`.
pub open spec fn init_steps(o: Orientation) -> Seq<StepView> {
    seq![
        StepView::Send(command(DataPhase::Single, CMD_SLEEP_OUT, Seq::empty())),
        StepView::DelayMs(SETTLE_MS),
        StepView::Send(command(DataPhase::Single, CMD_PIXEL_FORMAT, seq![PIXEL_FORMAT_565])),
        StepView::Send(command(DataPhase::Single, CMD_BRIGHTNESS, seq![BRIGHTNESS])),
        StepView::Send(command(DataPhase::Single, CMD_DISPLAY_ON, Seq::empty())),
        StepView::DelayMs(SETTLE_MS),
        StepView::Send(command(DataPhase::Single, CMD_BRIGHTNESS, seq![BRIGHTNESS])),
        StepView::Send(command(DataPhase::Single, CMD_MEMORY_ACCESS, seq![madctr(o)])),
    ]
}

/// The hardware reset sequence.
pub open spec fn reset_steps() -> Seq<StepView> {
    seq![
        StepView::ResetLine(false),
        StepView::DelayMs(RESET_LOW_MS),
        StepView::ResetLine(true),
        StepView::DelayMs(RESET_HIGH_MS),
    ]
}

/// A pixel at a signed position; positions off the surface are discarded.
#[derive(Copy, Clone, Debug, PartialEq, Eq, Structural)]
pub struct Pixel {
    pub x: i32,
    pub y: i32,
    pub color: u16,
}

/// A rectangle by its top-left corner and its size.
#[derive(Copy, Clone, Debug, PartialEq, Eq, Structural)]
pub struct Rect {
    pub x: i32,
    pub y: i32,
    pub width: u32,
    pub height: u32,
}

/// `(x, y)` lies on a surface of size `s`.
pub open spec fn on_surface(s: Size, x: int, y: int) -> bool {
    0 <= x < s.width && 0 <= y < s.height
}

/// Plots of the pixels of `ps` that lie on the surface, in order.
pub open spec fn pixels_frames(s: Size, ps: Seq<Pixel>) -> Seq<TransactionView>
    decreases ps.len(),
{
    if ps.len() == 0 {
        Seq::empty()
    } else {
        let p = ps.last();
        pixels_frames(s, ps.drop_last()) + if on_surface(s, p.x as int, p.y as int) {
            point_frames(p.x as u16, p.y as u16, p.color)
        } else {
            Seq::empty()
        }
    }
}

pub open spec fn min_int(a: int, b: int) -> int {
    if a < b { a } else { b }
}

pub open spec fn max_int(a: int, b: int) -> int {
    if a < b { b } else { a }
}

/// The part of `a` on the surface, as `(left, top, right, bottom)` with
/// exclusive right and bottom; empty when `left >= right` or `top >= bottom`.
pub open spec fn clip(s: Size, a: Rect) -> (int, int, int, int) {
    (
        max_int(a.x as int, 0),
        max_int(a.y as int, 0),
        min_int(a.x + a.width, s.width as int),
        min_int(a.y + a.height, s.height as int),
    )
}

/// A solid fill of the part of `a` on the surface; nothing where that part
/// is empty.
pub open spec fn solid_frames(s: Size, a: Rect, color: u16) -> Seq<TransactionView> {
    let (x0, y0, x1, y1) = clip(s, a);
    if x0 < x1 && y0 < y1 {
        fill_frames(
            x0 as u16,
            y0 as u16,
            (x1 - x0) as u16,
            (y1 - y0) as u16,
            Seq::new(((x1 - x0) * (y1 - y0)) as nat, |i: int| color),
        )
    } else {
        Seq::empty()
    }
}

/// `a` is not empty and lies wholly on the surface.
pub open spec fn rect_inside(s: Size, a: Rect) -> bool {
    0 <= a.x && 0 <= a.y && 1 <= a.width && 1 <= a.height && a.x + a.width <= s.width && a.y
        + a.height <= s.height
}

/// Plots, one by one, the first `n` pixels of `a` in row-major order with
/// the colors of `colors`, leaving out those off the surface.
pub open spec fn scatter_frames(s: Size, a: Rect, colors: Seq<u16>, n: nat) -> Seq<TransactionView>
    decreases n,
{
    if n == 0 {
        Seq::empty()
    } else {
        let i = n - 1;
        let px = a.x + i % (a.width as int);
        let py = a.y + i / (a.width as int);
        scatter_frames(s, a, colors, (n - 1) as nat) + if on_surface(s, px, py) {
            point_frames(px as u16, py as u16, colors[i])
        } else {
            Seq::empty()
        }
    }
}

/// A fill of `a` from `colors` in row-major order: one window and a pixel
/// stream when `a` lies on the surface, else pixel by pixel with the pixels
/// off the surface discarded.
pub open spec fn contiguous_frames(s: Size, a: Rect, colors: Seq<u16>) -> Seq<TransactionView> {
    if rect_inside(s, a) {
        fill_frames(a.x as u16, a.y as u16, a.width as u16, a.height as u16, colors)
    } else {
        scatter_frames(s, a, colors, min_int(colors.len() as int, a.width * a.height) as nat)
    }
}

/// Driver state of one panel: its current orientation.
pub struct RM67162 {
    orientation: Orientation,
}

impl View for RM67162 {
    type V = Orientation;

    closed spec fn view(&self) -> Orientation {
        self.orientation
    }
}

impl RM67162 {
    /// A driver for a panel mounted landscape, flipped.
    pub fn new() -> (r: RM67162)
        ensures
            r@ == Orientation::LandscapeFlipped,
    {
        RM67162 { orientation: Orientation::LandscapeFlipped }
    }

    pub fn orientation(&self) -> (r: Orientation)
        ensures
            r == self@,
    {
        self.orientation
    }

    /// Stores `orientation` and returns the command that applies it.
    ///
    /// The stored orientation does not depend on whether the command is
    /// later performed successfully.
    pub fn set_orientation(&mut self, orientation: Orientation) -> (t: Transaction)
        ensures
            final(self)@ == orientation,
            t@ == command(DataPhase::Single, CMD_MEMORY_ACCESS, seq![madctr(orientation)]),
    {
        self.orientation = orientation;
        let v = self.orientation.to_madctr();
        let data = vec![v];
        assert(data@ =~= seq![madctr(orientation)]);
        send_cmd(CMD_MEMORY_ACCESS, data)
    }

    /// The hardware reset: the reset line low for `RESET_LOW_MS`, then high
    /// for `RESET_HIGH_MS`.
    pub fn reset(&self) -> (r: Vec<Step>)
        ensures
            step_views(r@) == reset_steps(),
    {
        let r = vec![
            Step::ResetLine(false),
            Step::DelayMs(RESET_LOW_MS),
            Step::ResetLine(true),
            Step::DelayMs(RESET_HIGH_MS),
        ];
        assert(step_views(r@) =~= reset_steps());
        r
    }

    /// The bring-up sequence: sleep-out, settle, 16-bit pixel format,
    /// brightness, display-on, settle, brightness again, orientation.
    pub fn init(&self) -> (r: Vec<Step>)
        ensures
            step_views(r@) == init_steps(self@),
    {
        let format = vec![PIXEL_FORMAT_565];
        let level = vec![BRIGHTNESS];
        let level_again = vec![BRIGHTNESS];
        let access = vec![self.orientation.to_madctr()];
        assert(format@ =~= seq![PIXEL_FORMAT_565]);
        assert(level@ =~= seq![BRIGHTNESS]);
        assert(level_again@ =~= seq![BRIGHTNESS]);
        assert(access@ =~= seq![madctr(self@)]);
        let mut r: Vec<Step> = Vec::new();
        r.push(Step::Send(send_cmd(CMD_SLEEP_OUT, Vec::new())));
        r.push(Step::DelayMs(SETTLE_MS));
        r.push(Step::Send(send_cmd(CMD_PIXEL_FORMAT, format)));
        r.push(Step::Send(send_cmd(CMD_BRIGHTNESS, level)));
        r.push(Step::Send(send_cmd(CMD_DISPLAY_ON, Vec::new())));
        r.push(Step::DelayMs(SETTLE_MS));
        r.push(Step::Send(send_cmd(CMD_BRIGHTNESS, level_again)));
        r.push(Step::Send(send_cmd(CMD_MEMORY_ACCESS, access)));
        assert(step_views(r@) =~= init_steps(self@));
        r
    }

    /// The surface size in the current orientation.
    pub fn size(&self) -> (r: Size)
        ensures
            r == size_of(self@),
    {
        match self.orientation {
            Orientation::Landscape | Orientation::LandscapeFlipped => Size { width: PANEL_LONG, height: PANEL_SHORT },
            _ => Size { width: PANEL_SHORT, height: PANEL_LONG },
        }
    }

    /// The commands that set the addressing window to columns `x1..=x2`
    /// and rows `y1..=y2`.
    pub fn set_address(&self, x1: u16, y1: u16, x2: u16, y2: u16) -> (r: Vec<Transaction>)
        ensures
            frames(r@) == window_frames(x1, y1, x2, y2),
    {
        let cols = vec![(x1 / 256) as u8, (x1 % 256) as u8, (x2 / 256) as u8, (x2 % 256) as u8];
        let rows = vec![(y1 / 256) as u8, (y1 % 256) as u8, (y2 / 256) as u8, (y2 % 256) as u8];
        assert(cols@ =~= be_bytes(x1) + be_bytes(x2));
        assert(rows@ =~= be_bytes(y1) + be_bytes(y2));
        let r = vec![
            send_cmd(CMD_COLUMN_ADDRESS, cols),
            send_cmd(CMD_ROW_ADDRESS, rows),
            send_cmd(CMD_MEMORY_WRITE, Vec::new()),
        ];
        assert(frames(r@) =~= window_frames(x1, y1, x2, y2));
        r
    }

    /// Plots one pixel: a 1x1 window, then the color's two big-endian bytes.
    pub fn draw_point(&self, x: u16, y: u16, color: u16) -> (r: Vec<Transaction>)
        ensures
            frames(r@) == point_frames(x, y, color),
    {
        let mut r = self.set_address(x, y, x, y);
        r.push(send_cmd_114(CMD_MEMORY_WRITE, to_be_bytes(color)));
        assert(frames(r@) =~= point_frames(x, y, color));
        r
    }

    /// Fills the `w`-by-`h` rectangle at `(x, y)` from `colors` in
    /// row-major order. At most `w * h` colors are consumed; a shorter
    /// `colors` leaves the rest of the window unwritten.
    pub fn fill_colors(&self, x: u16, y: u16, w: u16, h: u16, colors: &[u16]) -> (r: Vec<Transaction>)
        requires
            rect_on_surface(size_of(self@), x, y, w, h),
        ensures
            frames(r@) == fill_frames(x, y, w, h, colors@),
    {
        assert((w as int) * (h as int) <= 536 * 536) by (nonlinear_arith)
            requires w <= 536, h <= 536;
        let area = (w as usize) * (h as usize);
        let n = if colors.len() < area { colors.len() } else { area };
        let mut r = self.set_address(x, y, x + w - 1, y + h - 1);
        let bytes = encode_pixels(colors, n);
        let mut data = stream_pixels(&bytes);
        r.append(&mut data);
        assert(frames(r@) =~= fill_frames(x, y, w, h, colors@));
        r
    }

    /// Fills the `w`-by-`h` rectangle at `(x, y)` with one color.
    pub fn fill_color(&self, x: u16, y: u16, w: u16, h: u16, color: u16) -> (r: Vec<Transaction>)
        requires
            rect_on_surface(size_of(self@), x, y, w, h),
        ensures
            frames(r@) == fill_frames(x, y, w, h, Seq::new((w * h) as nat, |i: int| color)),
    {
        assert((w as int) * (h as int) <= 536 * 536) by (nonlinear_arith)
            requires w <= 536, h <= 536;
        let area = (w as usize) * (h as usize);
        let mut colors: Vec<u16> = Vec::new();
        let mut i: usize = 0;
        while i < area
            invariant
                i <= area,
                colors@ =~= Seq::new(i as nat, |k: int| color),
            decreases area - i,
        {
            colors.push(color);
            i += 1;
        }
        self.fill_colors(x, y, w, h, colors.as_slice())
    }

    /// Sets the full-surface window and sends `raw` verbatim as one
    /// quad-wide pixel write; `raw` holds exactly two bytes per pixel.
    pub fn fill_with_framebuffer(&self, raw: Vec<u8>) -> (r: Vec<Transaction>)
        requires
            raw@.len() == size_of(self@).width * size_of(self@).height * 2,
        ensures
            frames(r@) == window_frames(
                0,
                0,
                (size_of(self@).width - 1) as u16,
                (size_of(self@).height - 1) as u16,
            ).push(command(DataPhase::Quad, crate::protocol::MEMORY_WRITE_CONTINUE, raw@)),
    {
        let s = self.size();
        let mut r = self.set_address(0, 0, (s.width - 1) as u16, (s.height - 1) as u16);
        r.push(send_cmd_114(crate::protocol::MEMORY_WRITE_CONTINUE, raw));
        assert(frames(r@) =~= window_frames(0, 0, (s.width - 1) as u16, (s.height - 1) as u16).push(
            command(DataPhase::Quad, crate::protocol::MEMORY_WRITE_CONTINUE, raw@)));
        r
    }

    /// Plots each pixel of `pixels` that lies on the surface, in order.
    pub fn draw_iter(&self, pixels: &[Pixel]) -> (r: Vec<Transaction>)
        ensures
            frames(r@) == pixels_frames(size_of(self@), pixels@),
    {
        let s = self.size();
        let mut r: Vec<Transaction> = Vec::new();
        let mut i: usize = 0;
        while i < pixels.len()
            invariant
                i <= pixels@.len(),
                s == size_of(self@),
                frames(r@) == pixels_frames(s, pixels@.take(i as int)),
            decreases pixels.len() - i,
        {
            let p = pixels[i];
            assert(pixels@.take(i + 1).drop_last() =~= pixels@.take(i as int));
            if 0 <= p.x && 0 <= p.y && (p.x as u32) < s.width && (p.y as u32) < s.height {
                let ghost before = r@;
                let mut plot = self.draw_point(p.x as u16, p.y as u16, p.color);
                let ghost added = plot@;
                r.append(&mut plot);
                assert(frames(r@) =~= frames(before) + frames(added));
            }
            i += 1;
        }
        assert(pixels@.take(i as int) =~= pixels@);
        r
    }

    /// Fills the part of `area` that lies on the surface with `color`.
    pub fn fill_solid(&self, area: Rect, color: u16) -> (r: Vec<Transaction>)
        ensures
            frames(r@) == solid_frames(size_of(self@), area, color),
    {
        let s = self.size();
        let x0: i64 = if area.x < 0 { 0 } else { area.x as i64 };
        let y0: i64 = if area.y < 0 { 0 } else { area.y as i64 };
        let right = area.x as i64 + area.width as i64;
        let bottom = area.y as i64 + area.height as i64;
        let x1: i64 = if right < s.width as i64 { right } else { s.width as i64 };
        let y1: i64 = if bottom < s.height as i64 { bottom } else { s.height as i64 };
        if x0 < x1 && y0 < y1 {
            self.fill_color(x0 as u16, y0 as u16, (x1 - x0) as u16, (y1 - y0) as u16, color)
        } else {
            Vec::new()
        }
    }

    /// Fills `area` from `colors` in row-major order, consuming at most one
    /// color per pixel of `area`; pixels off the surface are discarded.
    pub fn fill_contiguous(&self, area: Rect, colors: &[u16]) -> (r: Vec<Transaction>)
        ensures
            frames(r@) == contiguous_frames(size_of(self@), area, colors@),
    {
        let s = self.size();
        if 0 <= area.x && 0 <= area.y && 1 <= area.width && 1 <= area.height
            && area.x as u64 + area.width as u64 <= s.width as u64
            && area.y as u64 + area.height as u64 <= s.height as u64 {
            return self.fill_colors(area.x as u16, area.y as u16, area.width as u16, area.height as u16, colors);
        }
        let w = area.width as u64;
        assert(w * (area.height as u64) <= 0xffff_ffff_ffff_ffffu64) by (nonlinear_arith)
            requires w <= 0xffff_ffffu64, area.height <= 0xffff_ffffu32;
        let count = w * (area.height as u64);
        let n: usize = if (colors.len() as u64) < count { colors.len() } else { count as usize };
        let mut r: Vec<Transaction> = Vec::new();
        let mut i: usize = 0;
        while i < n
            invariant
                i <= n <= colors@.len(),
                n == min_int(colors@.len() as int, area.width * area.height),
                w == area.width,
                s == size_of(self@),
                frames(r@) == scatter_frames(s, area, colors@, i as nat),
            decreases n - i,
        {
            assert(w != 0) by (nonlinear_arith)
                requires i < n, n <= area.width * area.height, w == area.width;
            let col = (i as u64) % w;
            let row = (i as u64) / w;
            let px: i128 = area.x as i128 + col as i128;
            let py: i128 = area.y as i128 + row as i128;
            if 0 <= px && 0 <= py && px < s.width as i128 && py < s.height as i128 {
                let ghost before = r@;
                let mut plot = self.draw_point(px as u16, py as u16, colors[i]);
                let ghost added = plot@;
                r.append(&mut plot);
                assert(frames(r@) =~= frames(before) + frames(added));
            }
            i += 1;
        }
        r
    }
}

/// Distinct orientations have distinct register values, and the surface
/// is 536 by 240 in the landscape orientations and 240 by 536 in the
/// portrait ones.
pub proof fn lemma_orientation_registers(a: Orientation, b: Orientation)
    ensures
        a != b ==> madctr(a) != madctr(b),
        is_landscape(a) ==> size_of(a) == (Size { width: 536, height: 240 }),
        !is_landscape(a) ==> size_of(a) == (Size { width: 240, height: 536 }),
{
}

/// A fill of a `w`-by-`h` rectangle from at least `w * h` colors is one
/// window (column, row, memory write) followed by data commands alone:
/// `chunk_count(2 * w * h)` quad-wide memory-write-continue commands, none
/// over `FLUSH_BYTES` bytes, that together carry exactly the first
/// `w * h` colors, big-endian, in order.
pub proof fn lemma_fill_consumes_exactly(
    s: Size,
    x: u16,
    y: u16,
    w: u16,
    h: u16,
    colors: Seq<u16>,
)
    requires
        rect_on_surface(s, x, y, w, h),
        colors.len() >= w * h,
    ensures
        fill_frames(x, y, w, h, colors).take(3) == window_frames(x, y, (x + w - 1) as u16, (y + h - 1) as u16),
        fill_frames(x, y, w, h, colors).skip(3).len() == chunk_count((2 * w * h) as nat),
        payload_concat(fill_frames(x, y, w, h, colors).skip(3)) == pixel_bytes(colors.take(w * h)),
        forall|i: int| 0 <= i < fill_frames(x, y, w, h, colors).skip(3).len() ==> {
            let f = #[trigger] fill_frames(x, y, w, h, colors).skip(3)[i];
            &&& f.data_phase == DataPhase::Quad
            &&& f.addr == (MEMORY_WRITE_CONTINUE as u32) << 8u32
            &&& 0 < f.payload.len() <= FLUSH_BYTES
        },
{
    let fs = fill_frames(x, y, w, h, colors);
    let bytes = pixel_bytes(colors.take(w * h));
    assert(fill_count(w, h, colors) == w * h);
    lemma_pixel_bytes_len(colors.take(w * h));
    assert(2 * w * h == 2 * (w * h)) by (nonlinear_arith);
    assert(bytes.len() == 2 * w * h);
    lemma_stream_carries_bytes(bytes);
    assert(fs.take(3) =~= window_frames(x, y, (x + w - 1) as u16, (y + h - 1) as u16));
    assert(fs.skip(3) =~= stream_frames(bytes));
}

/// A fill never reads past its color source nor writes more than `w * h`
/// pixels: its data commands carry the big-endian bytes of the first
/// `min(colors.len(), w * h)` colors and nothing else.
pub proof fn lemma_fill_never_overruns(s: Size, x: u16, y: u16, w: u16, h: u16, colors: Seq<u16>)
    requires
        rect_on_surface(s, x, y, w, h),
    ensures
        payload_concat(fill_frames(x, y, w, h, colors).skip(3)) == pixel_bytes(
            colors.take(fill_count(w, h, colors)),
        ),
        fill_count(w, h, colors) <= w * h,
        fill_count(w, h, colors) <= colors.len(),
        colors.len() < w * h ==> payload_concat(fill_frames(x, y, w, h, colors).skip(3)) == pixel_bytes(colors),
{
    let fs = fill_frames(x, y, w, h, colors);
    let bytes = pixel_bytes(colors.take(fill_count(w, h, colors)));
    lemma_stream_carries_bytes(bytes);
    assert(fs.skip(3) =~= stream_frames(bytes));
    if colors.len() < w * h {
        assert(colors.take(fill_count(w, h, colors)) =~= colors);
    }
}

} // verus!
