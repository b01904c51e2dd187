//! Adapter from a row-oriented renderer to the panel driver, through one
//! reusable row buffer as wide as the panel.
use vstd::prelude::*;
use crate::driver::{fill_frames, rect_on_surface, size_of, PANEL_LONG, RM67162};
use crate::protocol::{frames, Transaction};

verus! {

/// The row buffer of a render pass.
pub struct DisplayWrapper {
    line_buffer: Vec<u16>,
}

impl View for DisplayWrapper {
    type V = Seq<u16>;

    closed spec fn view(&self) -> Seq<u16> {
        self.line_buffer@
    }
}

/// `buf` with the values at `start..start + rendered.len()` replaced by
/// those of `rendered`.
pub open spec fn overwrite(buf: Seq<u16>, start: int, rendered: Seq<u16>) -> Seq<u16> {
    buf.take(start) + rendered + buf.skip(start + rendered.len())
}

impl DisplayWrapper {
    /// A row buffer of `PANEL_LONG` zero pixels.
    pub fn new() -> (r: DisplayWrapper)
        ensures
            r@ == Seq::new(PANEL_LONG as nat, |i: int| 0u16),
    {
        let mut line_buffer: Vec<u16> = Vec::new();
        let mut i: usize = 0;
        while i < PANEL_LONG as usize
            invariant
                i <= PANEL_LONG,
                line_buffer@ =~= Seq::new(i as nat, |k: int| 0u16),
            decreases PANEL_LONG - i,
        {
            line_buffer.push(0);
            i += 1;
        }
        DisplayWrapper { line_buffer }
    }

    /// Reads the pixel at column `i` of the row buffer.
    pub fn pixel(&self, i: usize) -> (r: u16)
        requires
            i < self@.len(),
        ensures
            r == self@[i as int],
    {
        self.line_buffer[i]
    }

    /// Handles scanline `line` over columns `start..end`: stores the
    /// renderer's pixels `rendered` at `start..end` of the row buffer, then
    /// returns the fill of that one-pixel-high strip from the buffer.
    ///
    /// The rest of the buffer keeps what earlier lines left there.
    pub fn process_line(
        &mut self,
        display: &RM67162,
        line: usize,
        start: usize,
        end: usize,
        rendered: &[u16],
    ) -> (r: Vec<Transaction>)
        requires
            start < end <= old(self)@.len(),
            rendered@.len() == end - start,
            line < size_of(display@).height,
            end <= size_of(display@).width,
        ensures
            final(self)@ == overwrite(old(self)@, start as int, rendered@),
            frames(r@) == fill_frames(start as u16, line as u16, (end - start) as u16, 1, rendered@),
    {
        assert(rect_on_surface(size_of(display@), start as u16, line as u16, (end - start) as u16, 1));
        let mut i: usize = start;
        while i < end
            invariant
                start <= i <= end <= self.line_buffer@.len(),
                self.line_buffer@.len() == old(self)@.len(),
                rendered@.len() == end - start,
                forall|k: int| 0 <= k < start ==> self.line_buffer@[k] == old(self)@[k],
                forall|k: int| i <= k < self.line_buffer@.len() ==> self.line_buffer@[k] == old(self)@[k],
                forall|k: int| start <= k < i ==> self.line_buffer@[k] == rendered@[k - start],
            decreases end - i,
        {
            self.line_buffer.set(i, rendered[i - start]);
            i += 1;
        }
        assert(self.line_buffer@ =~= overwrite(old(self)@, start as int, rendered@));
        let mut strip: Vec<u16> = Vec::new();
        let mut j: usize = start;
        while j < end
            invariant
                start <= j <= end <= self.line_buffer@.len(),
                rendered@.len() == end - start,
                self.line_buffer@ == overwrite(old(self)@, start as int, rendered@),
                end <= old(self)@.len(),
                strip@.len() == j - start,
                forall|k: int| 0 <= k < j - start ==> strip@[k] == rendered@[k],
            decreases end - j,
        {
            let ghost before = old(self)@;
            assert((before.take(start as int) + rendered@)[j as int] == rendered@[j - start]);
            strip.push(self.line_buffer[j]);
            j += 1;
        }
        assert(strip@ =~= rendered@);
        display.fill_colors(start as u16, line as u16, (end - start) as u16, 1, strip.as_slice())
    }
}

} // verus!
