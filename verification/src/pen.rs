//! What one pointer event does to the stroke in progress: which segment it
//! paints, and whether it ends the interaction and hands over a drawing.

use vstd::prelude::*;
use crate::assembler::{assembled, Assembler, Scribble};
use crate::drawing::{black, Color, Drawing, DrawingView};
use crate::rect::DirtyRect;
use crate::smoother::{emitted, window_after, Sample, Segment, Smoother};

verus! {

/// The brush multiplier of black ink.
pub const BLACK_MULTIPLIER: u32 = 2;

/// The brush multiplier of white ink, which erases.
pub const WHITE_MULTIPLIER: u32 = 50;

/// The factor by which the widening button multiplies the brush.
pub const WIDE_FACTOR: u32 = 3;

/// A hover farther away than this ends the stroke in progress.
pub const HOVER_LIMIT: u16 = 1;

/// Which part of the pointer reports a change.
#[derive(Clone, Copy, Debug, PartialEq, Eq, Structural)]
pub enum PenTool {
    ToolPen,
    ToolRubber,
    Touch,
    Stylus,
    Stylus2,
}

/// One event of the pointer.
#[derive(Clone, Copy, Debug, PartialEq, Eq, Structural)]
pub enum PenEvent {
    /// The pointer touches the surface at a position, with a pressure.
    Draw { x: i32, y: i32, pressure: u16 },
    /// A part of the pointer came into the given state.
    InstrumentChange { pen: PenTool, state: bool },
    /// The pointer hovers at a distance above the surface.
    Hover { distance: u16 },
    /// Anything else.
    Unknown,
}

/// What the session holds between two events.
pub struct PenView {
    pub window: Seq<Sample>,
    pub batch: Seq<Scribble>,
    pub pen_black: bool,
    pub in_range: bool,
    pub canvas: DirtyRect,
}

/// What the caller has to do after an event.
pub struct PenOutcome {
    /// The segment to paint, if the event completed one.
    pub segment: Option<Segment>,
    /// The ink to paint it with.
    pub ink: Color,
    /// The finished stroke to send to the room, if the event ended one.
    pub drawing: Option<Drawing>,
}

/// The ink in use: black unless the rubber end is down or the erase button is
/// held.
pub open spec fn ink_in_use(pen_black: bool, erase_held: bool) -> Color {
    if pen_black && !erase_held {
        Color::Black
    } else {
        Color::White
    }
}

/// The brush multiplier in use: that of the ink, three times as much while
/// the widening button is held.
pub open spec fn multiplier_in_use(pen_black: bool, erase_held: bool, wide_held: bool) -> u32 {
    let base: u32 = if ink_in_use(pen_black, erase_held) == Color::White {
        50
    } else {
        2
    };
    if wide_held {
        (base * 3) as u32
    } else {
        base
    }
}

/// Whether the event paints: a touch inside the canvas.
pub open spec fn paints(v: PenView, event: PenEvent) -> bool {
    match event {
        PenEvent::Draw { x, y, .. } => v.canvas.has_point(x as int, y as int),
        _ => false,
    }
}

/// Whether the event ends the interaction: a touch outside the canvas, the
/// tip losing contact, or a hover beyond the limit.
pub open spec fn ends_stroke(v: PenView, event: PenEvent) -> bool {
    match event {
        PenEvent::Draw { x, y, .. } => !v.canvas.has_point(x as int, y as int),
        PenEvent::InstrumentChange { pen, state } => !state && (pen == PenTool::Touch || pen
            == PenTool::Stylus || pen == PenTool::Stylus2),
        PenEvent::Hover { distance } => distance > 1,
        PenEvent::Unknown => false,
    }
}

/// The sample that a touch contributes.
pub open spec fn sample_of(x: i32, y: i32, pressure: u16) -> Sample {
    Sample { x, y, pressure: pressure as i32, tilt: None }
}

/// The session after an event.
pub open spec fn pen_next(v: PenView, event: PenEvent, erase_held: bool, wide_held: bool) -> PenView {
    if ends_stroke(v, event) {
        PenView { window: Seq::empty(), batch: Seq::empty(), ..v }
    } else {
        match event {
            PenEvent::Draw { x, y, pressure } => PenView {
                window: window_after(v.window, sample_of(x, y, pressure)),
                batch: v.batch.push(
                    Scribble {
                        color: ink_in_use(v.pen_black, erase_held),
                        multiplier: multiplier_in_use(v.pen_black, erase_held, wide_held),
                        x,
                        y,
                        pressure: pressure as i32,
                    },
                ),
                ..v
            },
            PenEvent::InstrumentChange { pen, state } => if pen == PenTool::ToolPen || pen
                == PenTool::ToolRubber {
                PenView { in_range: state, pen_black: pen != PenTool::ToolRubber, ..v }
            } else {
                v
            },
            _ => v,
        }
    }
}

/// The segment that an event paints, if any.
pub open spec fn pen_segment(v: PenView, event: PenEvent, erase_held: bool, wide_held: bool) -> Option<
    Segment,
> {
    match event {
        PenEvent::Draw { x, y, pressure } => if v.canvas.has_point(x as int, y as int) {
            emitted(
                v.window,
                sample_of(x, y, pressure),
                multiplier_in_use(v.pen_black, erase_held, wide_held),
            )
        } else {
            None
        },
        _ => None,
    }
}

/// The drawing that an event hands over, if any: the collected points, when
/// the event ends the interaction and there are three of them at least.
pub open spec fn pen_drawing(v: PenView, event: PenEvent) -> Option<DrawingView> {
    if ends_stroke(v, event) && v.batch.len() >= 3 {
        Some(assembled(v.batch))
    } else {
        None
    }
}

/// The state of one participant's pointer: the smoother's window, the points
/// of the interaction in progress, and which end of the pointer is down.
pub struct PenSession {
    smoother: Smoother,
    assembler: Assembler,
    pen_black: bool,
    in_range: bool,
    canvas: DirtyRect,
}

impl PenSession {
    pub closed spec fn view(&self) -> PenView {
        PenView {
            window: self.smoother@,
            batch: self.assembler@,
            pen_black: self.pen_black,
            in_range: self.in_range,
            canvas: self.canvas,
        }
    }

    /// The window waits for a third sample, and the canvas is a rectangle.
    pub open spec fn wf(&self) -> bool {
        &&& self@.window.len() <= 2
        &&& self@.canvas.wf()
    }

    /// A session on the given canvas, with nothing drawn yet and the black
    /// end of the pointer in use.
    pub fn new(canvas: DirtyRect) -> (s: PenSession)
        requires
            canvas.wf(),
        ensures
            s.wf(),
            s@ == (PenView {
                window: Seq::empty(),
                batch: Seq::empty(),
                pen_black: true,
                in_range: false,
                canvas,
            }),
    {
        PenSession {
            smoother: Smoother::new(),
            assembler: Assembler::new(),
            pen_black: true,
            in_range: false,
            canvas,
        }
    }

    /// Whether the pointer is near the surface.
    pub fn in_range(&self) -> (r: bool)
        ensures
            r == self@.in_range,
    {
        self.in_range
    }

    /// Whether the black end of the pointer is in use.
    pub fn pen_black(&self) -> (r: bool)
        ensures
            r == self@.pen_black,
    {
        self.pen_black
    }

    /// The brush in use: its ink and its multiplier.
    pub fn brush(&self, erase_held: bool, wide_held: bool) -> (r: (Color, u32))
        ensures
            r.0 == ink_in_use(self@.pen_black, erase_held),
            r.1 == multiplier_in_use(self@.pen_black, erase_held, wide_held),
    {
        let ink = black(self.pen_black && !erase_held);
        let base: u32 = if ink == Color::White {
            WHITE_MULTIPLIER
        } else {
            BLACK_MULTIPLIER
        };
        let multiplier: u32 = if wide_held {
            base * WIDE_FACTOR
        } else {
            base
        };
        (ink, multiplier)
    }

    /// Ends the interaction in progress: the window is emptied without a
    /// last segment, and the collected points become a drawing if there are
    /// three at least.
    fn end_stroke(&mut self) -> (r: Option<Drawing>)
        requires
            old(self).wf(),
        ensures
            final(self).wf(),
            final(self)@ == (PenView { window: Seq::empty(), batch: Seq::empty(), ..old(self)@ }),
            old(self)@.batch.len() < 3 ==> r.is_none(),
            old(self)@.batch.len() >= 3 ==> r.is_some() && r.unwrap()@ == assembled(
                old(self)@.batch,
            ) && r.unwrap()@.wf(),
    {
        self.smoother.clear();
        self.assembler.finish()
    }

    /// Applies one pointer event.
    ///
    /// A touch inside the canvas joins the interaction and paints a segment
    /// once three samples have come. A touch outside the canvas, the tip
    /// losing contact and a hover beyond the limit end the interaction. The
    /// pen or rubber end coming or going only switches the ink.
    pub fn on_pen(&mut self, event: PenEvent, erase_held: bool, wide_held: bool) -> (r: PenOutcome)
        requires
            old(self).wf(),
        ensures
            final(self).wf(),
            final(self)@ == pen_next(old(self)@, event, erase_held, wide_held),
            r.segment == pen_segment(old(self)@, event, erase_held, wide_held),
            r.ink == ink_in_use(old(self)@.pen_black, erase_held),
            match pen_drawing(old(self)@, event) {
                Some(view) => r.drawing.is_some() && r.drawing.unwrap()@ == view && view.wf(),
                None => r.drawing.is_none(),
            },
    {
        let (ink, multiplier) = self.brush(erase_held, wide_held);
        match event {
            PenEvent::Draw { x, y, pressure } => {
                if !self.canvas.contains_point(x, y) {
                    let drawing = self.end_stroke();
                    return PenOutcome { segment: None, ink, drawing };
                }
                self.assembler.push(
                    Scribble { color: ink, multiplier, x, y, pressure: pressure as i32 },
                );
                let sample = Sample { x, y, pressure: pressure as i32, tilt: None };
                let segment = self.smoother.push(sample, multiplier);
                PenOutcome { segment, ink, drawing: None }
            },
            PenEvent::InstrumentChange { pen, state } => {
                match pen {
                    PenTool::ToolPen | PenTool::ToolRubber => {
                        self.in_range = state;
                        self.pen_black = !matches!(pen, PenTool::ToolRubber);
                        PenOutcome { segment: None, ink, drawing: None }
                    },
                    PenTool::Touch | PenTool::Stylus | PenTool::Stylus2 => {
                        if !state {
                            let drawing = self.end_stroke();
                            PenOutcome { segment: None, ink, drawing }
                        } else {
                            PenOutcome { segment: None, ink, drawing: None }
                        }
                    },
                }
            },
            PenEvent::Hover { distance } => {
                if distance > HOVER_LIMIT {
                    let drawing = self.end_stroke();
                    PenOutcome { segment: None, ink, drawing }
                } else {
                    PenOutcome { segment: None, ink, drawing: None }
                }
            },
            PenEvent::Unknown => PenOutcome { segment: None, ink, drawing: None },
        }
    }
}

} // verus!
