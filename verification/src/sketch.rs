//! The sketch pad: a canvas for one participant, where the pen draws or
//! erases with a brush of adjustable size and also taps what lies outside the
//! canvas.

use vstd::prelude::*;
use crate::drawing::Color;
use crate::modes::draw::DrawMode;
use crate::pen::{sample_of, PenEvent, PenTool};
use crate::rect::DirtyRect;
use crate::smoother::{emitted, window_after, Sample, Segment, Smoother};

verus! {

/// What the pad holds between two events.
pub struct SketchView {
    pub window: Seq<Sample>,
    /// Whether a stroke is in progress.
    pub drawing: bool,
    /// Whether the pen was lifted since it last tapped outside the canvas.
    pub unpress_observed: bool,
    pub in_range: bool,
    pub canvas: DirtyRect,
}

/// A place outside the canvas.
#[derive(Clone, Copy, Debug, PartialEq, Eq, Structural)]
pub struct Tap {
    pub x: i32,
    pub y: i32,
}

/// What the caller has to do after an event.
#[derive(Clone, Copy, Debug, PartialEq, Eq, Structural)]
pub struct SketchOutcome {
    /// The segment to paint, if the event completed one.
    pub segment: Option<Segment>,
    /// The ink to paint it with.
    pub ink: Color,
    /// Whether a stroke just ended, so that the canvas is to be saved.
    pub save_canvas: bool,
    /// The place that the pen tapped outside the canvas, if it did.
    pub tap: Option<Tap>,
}

/// Whether the pad knows what to do with the event: of the parts of the pen
/// only the pen end and the tip report changes.
pub open spec fn expected(event: PenEvent) -> bool {
    match event {
        PenEvent::InstrumentChange { pen, .. } => pen == PenTool::ToolPen || pen == PenTool::Touch,
        _ => true,
    }
}

/// The ink of a mode.
pub open spec fn ink_of(mode: DrawMode) -> Color {
    if mode is Draw {
        Color::Black
    } else {
        Color::White
    }
}

/// The brush multiplier of a mode: the eraser is three times as wide.
pub open spec fn multiplier_of(mode: DrawMode) -> int {
    if mode is Draw {
        mode.size() as int
    } else {
        mode.size() * 3
    }
}

/// The pad after an event.
pub open spec fn sketch_next(v: SketchView, event: PenEvent) -> SketchView {
    match event {
        PenEvent::Draw { x, y, pressure } => if v.canvas.has_point(x as int, y as int) {
            SketchView {
                window: window_after(v.window, sample_of(x, y, pressure)),
                drawing: true,
                ..v
            }
        } else {
            SketchView { window: Seq::empty(), unpress_observed: false, ..v }
        },
        PenEvent::InstrumentChange { pen, state } => if pen == PenTool::ToolPen {
            SketchView { in_range: state, ..v }
        } else if pen == PenTool::Touch && !state {
            SketchView { window: Seq::empty(), drawing: false, ..v }
        } else {
            v
        },
        PenEvent::Hover { distance } => if distance > 1 {
            SketchView { window: Seq::empty(), unpress_observed: true, ..v }
        } else {
            v
        },
        PenEvent::Unknown => v,
    }
}

/// What an event asks of the caller.
pub open spec fn sketch_outcome(v: SketchView, event: PenEvent, mode: DrawMode) -> SketchOutcome {
    let quiet = SketchOutcome { segment: None, ink: ink_of(mode), save_canvas: false, tap: None };
    match event {
        PenEvent::Draw { x, y, pressure } => if v.canvas.has_point(x as int, y as int) {
            SketchOutcome {
                segment: emitted(v.window, sample_of(x, y, pressure), multiplier_of(mode) as u32),
                ..quiet
            }
        } else if v.unpress_observed {
            SketchOutcome { tap: Some(Tap { x, y }), ..quiet }
        } else {
            quiet
        },
        PenEvent::InstrumentChange { pen, state } => if pen == PenTool::Touch && !state {
            SketchOutcome { save_canvas: v.drawing, ..quiet }
        } else {
            quiet
        },
        _ => quiet,
    }
}

/// The state of the pen on the sketch pad.
pub struct SketchPad {
    smoother: Smoother,
    drawing: bool,
    unpress_observed: bool,
    in_range: bool,
    canvas: DirtyRect,
}

impl SketchPad {
    pub closed spec fn view(&self) -> SketchView {
        SketchView {
            window: self.smoother@,
            drawing: self.drawing,
            unpress_observed: self.unpress_observed,
            in_range: self.in_range,
            canvas: self.canvas,
        }
    }

    /// The window waits for a third sample, and the canvas is a rectangle.
    pub open spec fn wf(&self) -> bool {
        &&& self@.window.len() <= 2
        &&& self@.canvas.wf()
    }

    /// A pad with the given canvas, on which nothing happened yet.
    pub fn new(canvas: DirtyRect) -> (s: SketchPad)
        requires
            canvas.wf(),
        ensures
            s.wf(),
            s@ == (SketchView {
                window: Seq::empty(),
                drawing: false,
                unpress_observed: false,
                in_range: false,
                canvas,
            }),
    {
        SketchPad {
            smoother: Smoother::new(),
            drawing: false,
            unpress_observed: false,
            in_range: false,
            canvas,
        }
    }

    /// Whether the pen is near the surface.
    pub fn in_range(&self) -> (r: bool)
        ensures
            r == self@.in_range,
    {
        self.in_range
    }

    /// Whether a stroke is in progress.
    pub fn is_drawing(&self) -> (r: bool)
        ensures
            r == self@.drawing,
    {
        self.drawing
    }

    /// Applies one pointer event under the given mode.
    ///
    /// A touch inside the canvas continues the stroke and paints a segment
    /// once three samples have come. A touch outside the canvas ends the
    /// window, and taps what lies there if the pen was lifted since the last
    /// tap. The tip losing contact ends the stroke, which is then to be
    /// saved. A hover beyond the limit ends the window and counts as a lift.
    pub fn on_wacom_input(&mut self, event: PenEvent, mode: DrawMode) -> (r: SketchOutcome)
        requires
            old(self).wf(),
            expected(event),
            mode is Erase ==> mode.size() * 3 <= u32::MAX,
        ensures
            final(self).wf(),
            final(self)@ == sketch_next(old(self)@, event),
            r == sketch_outcome(old(self)@, event, mode),
    {
        let (ink, multiplier) = mode.brush();
        let quiet = SketchOutcome { segment: None, ink, save_canvas: false, tap: None };
        match event {
            PenEvent::Draw { x, y, pressure } => {
                if !self.canvas.contains_point(x, y) {
                    self.smoother.clear();
                    let lifted = self.unpress_observed;
                    self.unpress_observed = false;
                    if lifted {
                        return SketchOutcome {
                            segment: None,
                            ink,
                            save_canvas: false,
                            tap: Some(Tap { x, y }),
                        };
                    }
                    return quiet;
                }
                self.drawing = true;
                let sample = Sample { x, y, pressure: pressure as i32, tilt: None };
                let segment = self.smoother.push(sample, multiplier);
                SketchOutcome { segment, ink, save_canvas: false, tap: None }
            },
            PenEvent::InstrumentChange { pen, state } => {
                match pen {
                    PenTool::ToolPen => {
                        self.in_range = state;
                        quiet
                    },
                    _ => {
                        if !state {
                            let was_just_drawing = self.drawing;
                            self.drawing = false;
                            self.smoother.clear();
                            SketchOutcome {
                                segment: None,
                                ink,
                                save_canvas: was_just_drawing,
                                tap: None,
                            }
                        } else {
                            quiet
                        }
                    },
                }
            },
            PenEvent::Hover { distance } => {
                if distance > 1 {
                    self.smoother.clear();
                    self.unpress_observed = true;
                }
                quiet
            },
            PenEvent::Unknown => quiet,
        }
    }
}

} // verus!
