//! Translation of touch-controller samples into pointer events, with a
//! synthesized release after a long enough run of empty polls.
use vstd::prelude::*;

verus! {

/// Extent of the touch controller's x axis, which becomes the reflected
/// y axis of the panel in its mounting.
pub const TOUCH_PANEL_HEIGHT: i32 = 240;

/// Empty polls tolerated before a release is synthesized.
pub const IDLE_RELEASE_POLLS: u32 = 100;

/// Phase of a touch reported by the controller.
#[derive(Copy, Clone, Debug, PartialEq, Eq, Structural)]
pub enum TouchKind {
    PressDown,
    LiftUp,
    Contact,
}

/// One sample of the controller, in its own axes.
#[derive(Copy, Clone, Debug, PartialEq, Eq, Structural)]
pub struct TouchPoint {
    pub x: u16,
    pub y: u16,
    pub event: TouchKind,
}

/// A pointer event in the renderer's coordinates.
#[derive(Copy, Clone, Debug, PartialEq, Eq, Structural)]
pub enum PointerEvent {
    Pressed { x: i32, y: i32 },
    Released { x: i32, y: i32 },
    Moved { x: i32, y: i32 },
    Exited,
}

/// The first point of an FT6236 register block `regs`, read from the
/// touch-count register onwards: `regs[0]` holds the number of touches in
/// its low four bits; `regs[1]` the event flag in its top two bits and the
/// high four bits of x in its low four; `regs[2]` the low byte of x;
/// `regs[3]` and `regs[4]` likewise y. No touch, or the event flag 3 (no
/// event), gives no sample.
pub open spec fn point0_of(regs: Seq<u8>) -> Option<TouchPoint> {
    let flag = regs[1] / 64;
    if regs[0] % 16 == 0 || flag == 3 {
        None
    } else {
        Some(TouchPoint {
            x: ((regs[1] % 16) * 256 + regs[2]) as u16,
            y: ((regs[3] % 16) * 256 + regs[4]) as u16,
            event: if flag == 0 {
                TouchKind::PressDown
            } else if flag == 1 {
                TouchKind::LiftUp
            } else {
                TouchKind::Contact
            },
        })
    }
}

/// Decodes the first touch point of an FT6236 register block.
pub fn decode_point0(regs: &[u8]) -> (r: Option<TouchPoint>)
    requires
        regs@.len() >= 5,
    ensures
        r == point0_of(regs@),
{
    let flag = regs[1] / 64;
    if regs[0] % 16 == 0 || flag == 3 {
        return None;
    }
    let x = (regs[1] % 16) as u16 * 256 + regs[2] as u16;
    let y = (regs[3] % 16) as u16 * 256 + regs[4] as u16;
    let event = if flag == 0 {
        TouchKind::PressDown
    } else if flag == 1 {
        TouchKind::LiftUp
    } else {
        TouchKind::Contact
    };
    Some(TouchPoint { x, y, event })
}

/// Position of a controller sample in the renderer's coordinates: the
/// axes swapped, then the new y reflected.
pub open spec fn remap_spec(x: u16, y: u16) -> (i32, i32) {
    (y as i32, (TOUCH_PANEL_HEIGHT - x) as i32)
}

/// The pointer event that a controller sample stands for.
pub open spec fn event_of(p: TouchPoint) -> PointerEvent {
    let (x, y) = remap_spec(p.x, p.y);
    match p.event {
        TouchKind::PressDown => PointerEvent::Pressed { x, y },
        TouchKind::LiftUp => PointerEvent::Released { x, y },
        TouchKind::Contact => PointerEvent::Moved { x, y },
    }
}

/// The idle counter after one more empty poll; it stops at its maximum.
pub open spec fn idle_next(c: u32) -> u32 {
    if c < u32::MAX { (c + 1) as u32 } else { c }
}

/// An empty poll that brings the counter to `c` synthesizes a release.
pub open spec fn fires(c: u32) -> bool {
    c == IDLE_RELEASE_POLLS + 1
}

/// The events of a poll that yields `sample` with the idle counter at `c`.
pub open spec fn poll_events(c: u32, sample: Option<TouchPoint>) -> Seq<PointerEvent> {
    match sample {
        Some(p) => seq![event_of(p)],
        None => if fires(idle_next(c)) {
            seq![PointerEvent::Released { x: 0, y: 0 }, PointerEvent::Exited]
        } else {
            Seq::empty()
        },
    }
}

/// The idle counter after `k` empty polls from zero.
pub open spec fn idle_after(k: nat) -> u32
    decreases k,
{
    if k == 0 { 0 } else { idle_next(idle_after((k - 1) as nat)) }
}

/// Maps a controller sample position into the renderer's coordinates.
pub fn remap(x: u16, y: u16) -> (r: (i32, i32))
    ensures
        r == remap_spec(x, y),
        r.0 == y as int,
        r.1 == TOUCH_PANEL_HEIGHT - x,
{
    (y as i32, TOUCH_PANEL_HEIGHT - x as i32)
}

/// Idle state of the touch translator.
pub struct TouchTranslator {
    released_cycles: u32,
}

impl View for TouchTranslator {
    type V = u32;

    closed spec fn view(&self) -> u32 {
        self.released_cycles
    }
}

impl TouchTranslator {
    pub fn new() -> (r: TouchTranslator)
        ensures
            r@ == 0,
    {
        TouchTranslator { released_cycles: 0 }
    }

    /// Number of consecutive empty polls so far.
    pub fn idle_polls(&self) -> (r: u32)
        ensures
            r == self@,
    {
        self.released_cycles
    }

    /// One poll cycle. A sample resets the idle counter and yields its
    /// event at the remapped position; an empty poll (or a failed one)
    /// counts as idle, and the empty poll that makes the count exceed
    /// `IDLE_RELEASE_POLLS` yields a release at `(0, 0)` then an exit.
    pub fn poll(&mut self, sample: Option<TouchPoint>) -> (r: Vec<PointerEvent>)
        ensures
            r@ == poll_events(old(self)@, sample),
            final(self)@ == match sample {
                Some(_) => 0u32,
                None => idle_next(old(self)@),
            },
    {
        match sample {
            Some(p) => {
                self.released_cycles = 0;
                let (x, y) = remap(p.x, p.y);
                let e = match p.event {
                    TouchKind::PressDown => PointerEvent::Pressed { x, y },
                    TouchKind::LiftUp => PointerEvent::Released { x, y },
                    TouchKind::Contact => PointerEvent::Moved { x, y },
                };
                let r = vec![e];
                assert(r@ =~= poll_events(old(self)@, sample));
                r
            },
            None => {
                if self.released_cycles < u32::MAX {
                    self.released_cycles = self.released_cycles + 1;
                }
                if self.released_cycles == IDLE_RELEASE_POLLS + 1 {
                    let r = vec![PointerEvent::Released { x: 0, y: 0 }, PointerEvent::Exited];
                    assert(r@ =~= poll_events(old(self)@, sample));
                    r
                } else {
                    let r: Vec<PointerEvent> = Vec::new();
                    assert(r@ =~= poll_events(old(self)@, sample));
                    r
                }
            },
        }
    }
}

/// After the event dispatch of a poll cycle: the loop goes straight to the
/// next poll, skipping its idle work, when nothing animates and a timer is
/// pending.
pub fn skip_idle_work(has_active_animations: bool, next_timer_ms: Option<u64>) -> (r: bool)
    ensures
        r == (!has_active_animations && next_timer_ms.is_some()),
{
    !has_active_animations && next_timer_ms.is_some()
}

/// A controller position with `x` at most `TOUCH_PANEL_HEIGHT` maps to a
/// row in `0..=TOUCH_PANEL_HEIGHT` and keeps `y` as its column; it lies on
/// the 536-by-240 landscape surface exactly when `x` is at least 1 and `y`
/// is below 536. Row `TOUCH_PANEL_HEIGHT` itself, reached from `x == 0`,
/// is just past the surface's last row.
pub proof fn lemma_remap_range(x: u16, y: u16)
    requires
        x <= TOUCH_PANEL_HEIGHT,
    ensures
        remap_spec(x, y).0 == y,
        0 <= remap_spec(x, y).1 <= TOUCH_PANEL_HEIGHT,
        (remap_spec(x, y).0 < 536 && remap_spec(x, y).1 < 240) <==> (1 <= x && y < 536),
        remap_spec(0, 0) == (0i32, TOUCH_PANEL_HEIGHT),
{
}

/// After `k` empty polls from zero the counter is `k`, up to its maximum.
pub proof fn lemma_idle_after(k: nat)
    ensures
        idle_after(k) == if k < u32::MAX { k } else { u32::MAX as nat },
    decreases k,
{
    if k > 0 {
        lemma_idle_after((k - 1) as nat);
    }
}

/// Release synthesis fires exactly once per idle period: counting from a
/// zero counter (a fresh translator, or any poll that yields a sample),
/// the `j`-th consecutive empty poll synthesizes the release if and only
/// if `j` is `IDLE_RELEASE_POLLS + 1`.
pub proof fn lemma_release_once_per_idle_period(j: nat)
    requires
        j >= 1,
    ensures
        poll_events(idle_after((j - 1) as nat), None).len() > 0 <==> j == IDLE_RELEASE_POLLS + 1,
        poll_events(idle_after((j - 1) as nat), None).len() > 0 ==> poll_events(idle_after((j - 1) as nat), None)
            == seq![PointerEvent::Released { x: 0, y: 0 }, PointerEvent::Exited],
{
    lemma_idle_after((j - 1) as nat);
    lemma_idle_after(j);
}

} // verus!
