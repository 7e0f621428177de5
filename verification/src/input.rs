//! The input state machine: the current interaction mode, the in-progress
//! stroke, and the configuration a text label is placed with.
//!
//! Exactly one mode is active at a time; selecting the eraser or text
//! placement forcibly leaves the other, so mutual exclusion is structural.
//! Switching modes mid-drag explicitly discards the in-progress stroke: an
//! uncommitted stroke never survives a mode change.

use vstd::prelude::*;
use crate::canvas::{retained_annotations, retained_strokes, Annotation, Canvas, Orientation};
use crate::geometry::Point;

verus! {

/// The erase radius, in canvas units, used for both click and drag erasing.
pub const ERASE_RADIUS: u32 = 20;

/// The interaction mode. At most one is active at any time.
#[derive(Copy, Clone, PartialEq, Eq, Structural, Debug)]
pub enum Mode {
    Idle,
    Drawing,
    Erasing,
    TextPlacing,
}

/// The input side of the surface: mode, in-progress stroke, and the
/// configured text, size, orientation and font for label placement.
pub struct InputState {
    pub mode: Mode,
    /// Points accumulated by the drag in progress; only the drawing path
    /// ever touches this buffer.
    pub current: Vec<Point>,
    pub text: String,
    pub size: u32,
    pub orientation: Orientation,
    /// The resolved font family labels are placed with, if one is selected.
    pub font: Option<String>,
}

impl InputState {
    /// Points are only accumulated while drawing, and the configured size is
    /// always positive.
    pub open spec fn wf(&self) -> bool {
        (self.mode != Mode::Drawing ==> self.current@.len() == 0) && self.size >= 1
    }

    /// The machine starts idle with an empty stroke buffer, empty text, a
    /// default size, horizontal orientation and no selected font.
    pub fn new() -> (s: InputState)
        ensures
            s.mode == Mode::Idle,
            s.current@ == Seq::<Point>::empty(),
            s.text@ == Seq::<char>::empty(),
            s.size == 40,
            s.orientation == Orientation::Horizontal,
            s.font is None,
            s.wf(),
    {
        InputState {
            mode: Mode::Idle,
            current: Vec::new(),
            text: String::new(),
            size: 40,
            orientation: Orientation::Horizontal,
            font: None,
        }
    }

    /// Toggles the eraser control. Entering the eraser forcibly leaves text
    /// placement; leaving it returns to idle. Any in-progress stroke is
    /// discarded.
    pub fn toggle_eraser(&mut self)
        ensures
            old(self).mode == Mode::Erasing ==> final(self).mode == Mode::Idle,
            old(self).mode != Mode::Erasing ==> final(self).mode == Mode::Erasing,
            final(self).current@ == Seq::<Point>::empty(),
            final(self).text == old(self).text,
            final(self).size == old(self).size,
            final(self).orientation == old(self).orientation,
            final(self).font == old(self).font,
            old(self).wf() ==> final(self).wf(),
    {
        if matches!(self.mode, Mode::Erasing) {
            self.mode = Mode::Idle;
        } else {
            self.mode = Mode::Erasing;
        }
        self.current = Vec::new();
    }

    /// Toggles the text-placement control. Entering text placement forcibly
    /// leaves the eraser; leaving it returns to idle. Any in-progress stroke
    /// is discarded.
    pub fn toggle_text_mode(&mut self)
        ensures
            old(self).mode == Mode::TextPlacing ==> final(self).mode == Mode::Idle,
            old(self).mode != Mode::TextPlacing ==> final(self).mode == Mode::TextPlacing,
            final(self).current@ == Seq::<Point>::empty(),
            final(self).text == old(self).text,
            final(self).size == old(self).size,
            final(self).orientation == old(self).orientation,
            final(self).font == old(self).font,
            old(self).wf() ==> final(self).wf(),
    {
        if matches!(self.mode, Mode::TextPlacing) {
            self.mode = Mode::Idle;
        } else {
            self.mode = Mode::TextPlacing;
        }
        self.current = Vec::new();
    }

    /// A drag begins. Only an idle machine starts drawing: the new stroke
    /// buffer holds the down position. In every other mode nothing changes.
    pub fn on_drag_start(&mut self, p: Point)
        ensures
            old(self).mode == Mode::Idle ==> final(self).mode == Mode::Drawing
                && final(self).current@ == seq![p],
            old(self).mode == Mode::Idle ==> final(self).text == old(self).text
                && final(self).size == old(self).size
                && final(self).orientation == old(self).orientation
                && final(self).font == old(self).font,
            old(self).mode != Mode::Idle ==> *final(self) == *old(self),
            old(self).wf() ==> final(self).wf(),
    {
        if matches!(self.mode, Mode::Idle) {
            self.mode = Mode::Drawing;
            let mut start: Vec<Point> = Vec::new();
            start.push(p);
            proof {
                assert(start@ =~= seq![p]);
            }
            self.current = start;
        }
    }

    /// The pointer moves during a drag. While drawing the position is
    /// appended to the in-progress stroke; while erasing, the canvas is
    /// erased around the position. Otherwise nothing changes.
    pub fn on_drag_move(&mut self, canvas: &mut Canvas, p: Point)
        ensures
            old(self).mode == Mode::Drawing ==> final(self).current@ == old(self).current@.push(p)
                && final(self).mode == Mode::Drawing && *final(canvas) == *old(canvas),
            old(self).mode == Mode::Erasing ==> *final(self) == *old(self) && erased_at(
                *old(canvas),
                *final(canvas),
                p,
            ),
            old(self).mode == Mode::Idle || old(self).mode == Mode::TextPlacing ==> *final(self)
                == *old(self) && *final(canvas) == *old(canvas),
            final(self).text == old(self).text,
            final(self).size == old(self).size,
            final(self).orientation == old(self).orientation,
            final(self).font == old(self).font,
            old(self).wf() ==> final(self).wf(),
            old(canvas).wf() ==> final(canvas).wf(),
    {
        match self.mode {
            Mode::Drawing => {
                self.current.push(p);
            },
            Mode::Erasing => {
                canvas.erase_near(p, ERASE_RADIUS);
            },
            _ => {},
        }
    }

    /// A drag ends. A finished drawing drag commits the in-progress stroke —
    /// unless it accumulated no points, in which case it is discarded and
    /// the canvas is untouched. The machine returns to idle either way.
    pub fn on_drag_end(&mut self, canvas: &mut Canvas)
        ensures
            old(self).mode == Mode::Drawing ==> final(self).mode == Mode::Idle
                && final(self).current@ == Seq::<Point>::empty(),
            old(self).mode == Mode::Drawing && old(self).current@.len() > 0
                ==> final(canvas).strokes_view() == old(canvas).strokes_view().push(
                old(self).current@,
            ) && final(canvas).annotations == old(canvas).annotations,
            old(self).mode == Mode::Drawing && old(self).current@.len() == 0 ==> *final(canvas)
                == *old(canvas),
            old(self).mode != Mode::Drawing ==> *final(self) == *old(self) && *final(canvas)
                == *old(canvas),
            final(self).text == old(self).text,
            final(self).size == old(self).size,
            final(self).orientation == old(self).orientation,
            final(self).font == old(self).font,
            old(self).wf() ==> final(self).wf(),
            old(canvas).wf() ==> final(canvas).wf(),
    {
        if matches!(self.mode, Mode::Drawing) {
            let finished = crate::canvas::copy_points(&self.current);
            canvas.commit_stroke(finished);
            self.current = Vec::new();
            self.mode = Mode::Idle;
        }
    }

    /// A single click. While placing text, a label with the configured text,
    /// size, orientation and font is placed at the click position — rejected
    /// if the text is empty or no font is resolved. While erasing, a one-shot
    /// erase happens at the click position. Otherwise nothing changes.
    pub fn on_click(&mut self, canvas: &mut Canvas, p: Point)
        requires
            old(self).wf(),
        ensures
            *final(self) == *old(self),
            old(self).mode == Mode::TextPlacing && old(self).text@.len() > 0 && old(self).font
                is Some ==> final(canvas).annotations@ == old(canvas).annotations@.push(
                (Annotation {
                    anchor: p,
                    text: old(self).text,
                    size: old(self).size,
                    orientation: old(self).orientation,
                    font: old(self).font->0,
                }),
            ) && final(canvas).strokes == old(canvas).strokes,
            old(self).mode == Mode::TextPlacing && !(old(self).text@.len() > 0 && old(self).font
                is Some) ==> *final(canvas) == *old(canvas),
            old(self).mode == Mode::Erasing ==> erased_at(*old(canvas), *final(canvas), p),
            old(self).mode == Mode::Idle || old(self).mode == Mode::Drawing ==> *final(canvas)
                == *old(canvas),
            old(canvas).wf() ==> final(canvas).wf(),
    {
        match self.mode {
            Mode::TextPlacing => {
                canvas.place_annotation(p, &self.text, self.size, self.orientation, &self.font);
            },
            Mode::Erasing => {
                canvas.erase_near(p, ERASE_RADIUS);
            },
            _ => {},
        }
    }

    /// Replaces the configured label text. Repeated placements reuse it; it
    /// is never cleared automatically.
    pub fn set_text(&mut self, text: String)
        ensures
            final(self).text == text,
            final(self).mode == old(self).mode,
            final(self).current == old(self).current,
            final(self).size == old(self).size,
            final(self).orientation == old(self).orientation,
            final(self).font == old(self).font,
            old(self).wf() ==> final(self).wf(),
    {
        self.text = text;
    }

    /// Replaces the configured label size.
    pub fn set_size(&mut self, size: u32)
        requires
            size >= 1,
        ensures
            final(self).size == size,
            final(self).mode == old(self).mode,
            final(self).current == old(self).current,
            final(self).text == old(self).text,
            final(self).orientation == old(self).orientation,
            final(self).font == old(self).font,
            old(self).wf() ==> final(self).wf(),
    {
        self.size = size;
    }

    /// Replaces the configured orientation.
    pub fn set_orientation(&mut self, orientation: Orientation)
        ensures
            final(self).orientation == orientation,
            final(self).mode == old(self).mode,
            final(self).current == old(self).current,
            final(self).text == old(self).text,
            final(self).size == old(self).size,
            final(self).font == old(self).font,
            old(self).wf() ==> final(self).wf(),
    {
        self.orientation = orientation;
    }

    /// Replaces the selected font reference.
    pub fn set_font(&mut self, font: Option<String>)
        ensures
            final(self).font == font,
            final(self).mode == old(self).mode,
            final(self).current == old(self).current,
            final(self).text == old(self).text,
            final(self).size == old(self).size,
            final(self).orientation == old(self).orientation,
            old(self).wf() ==> final(self).wf(),
    {
        self.font = font;
    }
}

/// What one erase interaction at `p` does to the canvas: strokes with a
/// point strictly inside the erase disk are removed, annotations keep
/// exactly those anchored at distance at least the radius.
pub open spec fn erased_at(before: Canvas, after: Canvas, p: Point) -> bool {
    after.strokes_view() == retained_strokes(before.strokes_view(), p, ERASE_RADIUS)
        && after.annotations@ == retained_annotations(before.annotations@, p, ERASE_RADIUS)
}

/// At most one interaction mode is ever active: the mode is one tag, so the
/// eraser and text placement are mutually exclusive in every state.
pub proof fn lemma_modes_mutually_exclusive(s: InputState)
    ensures
        !(s.mode == Mode::Erasing && s.mode == Mode::TextPlacing),
{
}

} // verus!
