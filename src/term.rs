use vstd::prelude::*;

verus! {

/// The number of frame parameters the host has handlers for.
pub const FRAME_PARM_COUNT: usize = 45;

/// The position of the font parameter among the host's frame parameters.
pub const FONT_PARM_INDEX: usize = 7;

/// The position of the font-backend parameter among the host's frame parameters.
pub const FONT_BACKEND_PARM_INDEX: usize = 33;

/// The frame-parameter handlers this backend supplies.
#[derive(Clone, Copy, Debug, PartialEq, Eq, Structural)]
pub enum FrameParmHandler {
    SetFont,
    SetFontBackend,
}

/// The handler for the frame parameter at a position, if this backend has one.
pub open spec fn frame_parm_handler(i: int) -> Option<FrameParmHandler> {
    if i == FONT_PARM_INDEX {
        Some(FrameParmHandler::SetFont)
    } else if i == FONT_BACKEND_PARM_INDEX {
        Some(FrameParmHandler::SetFontBackend)
    } else {
        None
    }
}

/// The handlers for the host's frame parameters, in the host's order: only the
/// font and font-backend parameters are handled.
pub fn get_frame_parm_handlers() -> (r: Vec<Option<FrameParmHandler>>)
    ensures
        r@.len() == FRAME_PARM_COUNT,
        forall|i: int| 0 <= i < FRAME_PARM_COUNT ==> #[trigger] r@[i] == frame_parm_handler(i),
{
    let mut handlers: Vec<Option<FrameParmHandler>> = Vec::new();
    let mut i: usize = 0;
    while i < FRAME_PARM_COUNT
        invariant
            i <= FRAME_PARM_COUNT,
            handlers@.len() == i,
            forall|j: int| 0 <= j < i ==> #[trigger] handlers@[j] == frame_parm_handler(j),
        decreases FRAME_PARM_COUNT - i,
    {
        let handler = if i == FONT_PARM_INDEX {
            Some(FrameParmHandler::SetFont)
        } else if i == FONT_BACKEND_PARM_INDEX {
            Some(FrameParmHandler::SetFontBackend)
        } else {
            None
        };
        handlers.push(handler);
        i = i + 1;
    }
    handlers
}

/// Half of a value, rounded toward zero.
pub open spec fn half_toward_zero(v: int) -> int {
    if v >= 0 {
        v / 2
    } else {
        -((-v) / 2)
    }
}

/// The baseline of a run of glyphs: the font's ascent below the top of the
/// run, with the font centred in the row.
pub open spec fn glyph_baseline(y: int, ascent: int, row_height: int, font_height: int) -> int {
    y + (ascent + half_toward_zero(row_height - font_height))
}

/// Whether every step of the baseline computation stays in range.
pub open spec fn glyph_baseline_fits(y: i32, ascent: i32, row_height: i32, font_height: i32) -> bool {
    &&& i32::MIN <= row_height - font_height <= i32::MAX
    &&& i32::MIN <= ascent + half_toward_zero(row_height - font_height) <= i32::MAX
    &&& i32::MIN <= glyph_baseline(y as int, ascent as int, row_height as int, font_height as int)
        <= i32::MAX
}

/// Where the glyphs of a row are drawn from: the row's top `y`, the font's
/// ascent, and the row's and the font's heights.
pub fn glyph_string_baseline(y: i32, ascent: i32, row_height: i32, font_height: i32) -> (r: i32)
    requires
        glyph_baseline_fits(y, ascent, row_height, font_height),
    ensures
        r == glyph_baseline(y as int, ascent as int, row_height as int, font_height as int),
{
    let spare = row_height - font_height;
    let half = spare / 2;
    y + (ascent + half)
}

/// The host's keyboard record, which counts the terminals that share it.
#[derive(Clone, Copy, Debug, PartialEq, Eq, Structural)]
pub struct KboardRef {
    pub reference_count: i32,
}

impl KboardRef {
    /// Counts one more user of the keyboard record.
    pub fn add_ref(&mut self)
        requires
            old(self).reference_count < i32::MAX,
        ensures
            final(self).reference_count == old(self).reference_count + 1,
    {
        self.reference_count = self.reference_count + 1;
    }
}

} // verus!
