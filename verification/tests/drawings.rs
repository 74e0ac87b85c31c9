use marauder::assembler::{Assembler, Scribble};
use marauder::drawing::{black, Color, Drawing, DrawingError};
use marauder::pen::{PenEvent, PenSession, PenTool};
use marauder::rect::DirtyRect;
use marauder::smoother::{make_segment, Anchor, Sample};

fn line() -> Drawing {
    Drawing::new(vec![0, 1, 2], vec![0, 0, 0], vec![2000, 2000, 2000], vec![2, 2, 2], Color::Black)
        .unwrap()
}

fn canvas() -> DirtyRect {
    DirtyRect::Area { left: 0, top: 72, width: 1403, height: 1799 }
}

#[test]
fn color2bool() {
    assert_eq!(black(true), Color::Black);
    assert_eq!(black(false), Color::White);
    assert!(matches!(black(true), Color::Black));
}

#[test]
fn only_white_paints_white() {
    assert_eq!(Color::White.ink(), Color::White);
    assert_eq!(Color::Black.ink(), Color::Black);
    assert_eq!(Color::Invisible.ink(), Color::Black);
}

#[test]
fn mismatched_lengths_are_invalid() {
    let e = Drawing::new(vec![0, 1, 2], vec![0, 0], vec![1, 1, 1], vec![2, 2, 2], Color::Black);
    assert_eq!(e.unwrap_err(), DrawingError::InvalidDrawing);
    let e = Drawing::new(vec![0, 1, 2], vec![0, 0, 0], vec![1, 1, 1, 1], vec![2, 2, 2], Color::Black);
    assert_eq!(e.unwrap_err(), DrawingError::InvalidDrawing);
    let e = Drawing::new(vec![0, 1, 2], vec![0, 0, 0], vec![1, 1, 1], vec![], Color::White);
    assert_eq!(e.unwrap_err(), DrawingError::InvalidDrawing);
    let e = Drawing::new(vec![], vec![0], vec![], vec![], Color::White);
    assert_eq!(e.unwrap_err(), DrawingError::InvalidDrawing);
}

#[test]
fn fewer_than_three_points_are_too_few() {
    let e = Drawing::new(vec![0, 1], vec![0, 0], vec![1, 1], vec![2, 2], Color::Black);
    assert_eq!(e.unwrap_err(), DrawingError::TooFewPoints);
    let e = Drawing::new(vec![], vec![], vec![], vec![], Color::Black);
    assert_eq!(e.unwrap_err(), DrawingError::TooFewPoints);
}

#[test]
fn a_drawing_keeps_what_it_was_made_of() {
    let d = Drawing::new(vec![5, 6, 7, 8], vec![1, 2, 3, 4], vec![9, 8, 7, 6], vec![2, 2, 6, 6], Color::White)
        .unwrap();
    assert_eq!(d.len(), 4);
    assert_eq!(d.xs(), &vec![5, 6, 7, 8]);
    assert_eq!(d.ys(), &vec![1, 2, 3, 4]);
    assert_eq!(d.pressures(), &vec![9, 8, 7, 6]);
    assert_eq!(d.widths(), &vec![2, 2, 6, 6]);
    assert_eq!(d.color(), Color::White);
    let s = d.sample(2);
    assert_eq!((s.x, s.y, s.pressure), (7, 3, 7));
    assert_eq!(d.clone(), d);
}

#[test]
fn erasing_changes_the_colour_only() {
    let d = line();
    let e = d.erased();
    assert_eq!(e.color(), Color::White);
    assert_eq!(e.xs(), d.xs());
    assert_eq!(e.ys(), d.ys());
    assert_eq!(e.pressures(), d.pressures());
    assert_eq!(e.widths(), d.widths());
    assert_eq!(d.with_color(Color::Invisible).color(), Color::Invisible);
    assert_eq!(d.color(), Color::Black);
}

#[test]
fn a_received_line_renders_as_one_segment() {
    let segments = line().segments();
    assert_eq!(segments.len(), 1);
    assert_eq!(segments[0].footprint, DirtyRect::Area { left: 0, top: 0, width: 2, height: 0 });
    assert_eq!(segments[0].start, Anchor { x2: 3, y2: 0, width: 8000 });
    assert_eq!(segments[0].end, Anchor { x2: 1, y2: 0, width: 8000 });
}

#[test]
fn each_point_is_painted_with_its_own_width() {
    let d = Drawing::new(
        vec![0, 10, 20, 30],
        vec![0, 5, 0, 5],
        vec![100, 200, 300, 400],
        vec![2, 4, 6, 8],
        Color::Black,
    )
    .unwrap();
    let segments = d.segments();
    assert_eq!(segments.len(), 2);
    let s = |i: usize| -> Sample { d.sample(i) };
    assert_eq!(segments[0], make_segment(&s(0), 2, &s(1), 4, &s(2), 6));
    assert_eq!(segments[1], make_segment(&s(1), 4, &s(2), 6, &s(3), 8));
    assert_eq!(segments[1].start.width, 400 * 8 + 300 * 6);
    assert_eq!(segments[1].control.width, 2 * 300 * 6);
    assert_eq!(segments[1].end.width, 300 * 6 + 200 * 4);
}

fn scribble(color: Color, multiplier: u32, x: i32) -> Scribble {
    Scribble { color, multiplier, x, y: x + 100, pressure: 1000 + x }
}

#[test]
fn two_points_yield_no_drawing() {
    let mut a = Assembler::new();
    a.push(scribble(Color::Black, 2, 0));
    a.push(scribble(Color::Black, 2, 1));
    assert_eq!(a.len(), 2);
    assert!(a.finish().is_none());
    assert_eq!(a.len(), 0);
    assert!(a.finish().is_none());
}

#[test]
fn a_stroke_takes_the_colour_of_its_first_point() {
    let mut a = Assembler::new();
    a.push(scribble(Color::White, 50, 0));
    a.push(scribble(Color::Black, 2, 1));
    a.push(scribble(Color::Black, 6, 2));
    let d = a.finish().unwrap();
    assert_eq!(d.color(), Color::White);
    assert_eq!(d.xs(), &vec![0, 1, 2]);
    assert_eq!(d.ys(), &vec![100, 101, 102]);
    assert_eq!(d.pressures(), &vec![1000, 1001, 1002]);
    assert_eq!(d.widths(), &vec![50, 2, 6]);
    assert_eq!(a.len(), 0);
}

#[test]
fn the_pen_paints_from_the_third_touch_on() {
    let mut s = PenSession::new(canvas());
    assert!(s.pen_black());
    assert!(!s.in_range());
    let o = s.on_pen(PenEvent::Draw { x: 10, y: 100, pressure: 2000 }, false, false);
    assert!(o.segment.is_none() && o.drawing.is_none());
    let o = s.on_pen(PenEvent::Draw { x: 11, y: 100, pressure: 2000 }, false, false);
    assert!(o.segment.is_none() && o.drawing.is_none());
    let o = s.on_pen(PenEvent::Draw { x: 12, y: 100, pressure: 2000 }, false, false);
    assert_eq!(o.ink, Color::Black);
    let seg = o.segment.unwrap();
    assert_eq!(seg.footprint, DirtyRect::Area { left: 10, top: 100, width: 2, height: 0 });
    assert_eq!(seg.control, Anchor { x2: 22, y2: 200, width: 8000 });
    assert!(o.drawing.is_none());
    let o = s.on_pen(PenEvent::InstrumentChange { pen: PenTool::Touch, state: false }, false, false);
    assert!(o.segment.is_none());
    let d = o.drawing.unwrap();
    assert_eq!(d.xs(), &vec![10, 11, 12]);
    assert_eq!(d.widths(), &vec![2, 2, 2]);
    assert_eq!(d.color(), Color::Black);
    let o = s.on_pen(PenEvent::InstrumentChange { pen: PenTool::Touch, state: false }, false, false);
    assert!(o.drawing.is_none());
}

#[test]
fn leftover_samples_are_not_flushed() {
    let mut s = PenSession::new(canvas());
    for x in 0..4 {
        s.on_pen(PenEvent::Draw { x, y: 100, pressure: 10 }, false, false);
    }
    let o = s.on_pen(PenEvent::Hover { distance: 2 }, false, false);
    assert!(o.segment.is_none());
    assert_eq!(o.drawing.unwrap().len(), 4);
    let o = s.on_pen(PenEvent::Draw { x: 50, y: 100, pressure: 10 }, false, false);
    assert!(o.segment.is_none());
    let o = s.on_pen(PenEvent::Draw { x: 51, y: 100, pressure: 10 }, false, false);
    assert!(o.segment.is_none());
}

#[test]
fn a_near_hover_ends_nothing() {
    let mut s = PenSession::new(canvas());
    for x in 0..3 {
        s.on_pen(PenEvent::Draw { x, y: 100, pressure: 10 }, false, false);
    }
    let o = s.on_pen(PenEvent::Hover { distance: 1 }, false, false);
    assert!(o.drawing.is_none());
    let o = s.on_pen(PenEvent::Unknown, false, false);
    assert!(o.drawing.is_none());
    let o = s.on_pen(PenEvent::InstrumentChange { pen: PenTool::Stylus, state: true }, false, false);
    assert!(o.drawing.is_none());
    let o = s.on_pen(PenEvent::Draw { x: 3, y: 100, pressure: 10 }, false, false);
    assert!(o.segment.is_some());
}

#[test]
fn leaving_the_canvas_ends_the_stroke() {
    let mut s = PenSession::new(canvas());
    for x in 0..3 {
        s.on_pen(PenEvent::Draw { x, y: 72, pressure: 10 }, false, false);
    }
    let o = s.on_pen(PenEvent::Draw { x: 3, y: 71, pressure: 10 }, false, false);
    assert!(o.segment.is_none());
    assert_eq!(o.drawing.unwrap().xs(), &vec![0, 1, 2]);
    let o = s.on_pen(PenEvent::Draw { x: 1404, y: 100, pressure: 10 }, false, false);
    assert!(o.segment.is_none() && o.drawing.is_none());
}

#[test]
fn the_brush_follows_the_pen_and_the_buttons() {
    let mut s = PenSession::new(canvas());
    assert_eq!(s.brush(false, false), (Color::Black, 2));
    assert_eq!(s.brush(false, true), (Color::Black, 6));
    assert_eq!(s.brush(true, false), (Color::White, 50));
    assert_eq!(s.brush(true, true), (Color::White, 150));
    s.on_pen(PenEvent::InstrumentChange { pen: PenTool::ToolRubber, state: true }, false, false);
    assert!(!s.pen_black());
    assert!(s.in_range());
    assert_eq!(s.brush(false, false), (Color::White, 50));
    s.on_pen(PenEvent::InstrumentChange { pen: PenTool::ToolPen, state: false }, false, false);
    assert!(s.pen_black());
    assert!(!s.in_range());
}

#[test]
fn a_stroke_stays_in_its_first_colour() {
    let mut s = PenSession::new(canvas());
    s.on_pen(PenEvent::Draw { x: 0, y: 100, pressure: 10 }, true, false);
    s.on_pen(PenEvent::Draw { x: 1, y: 100, pressure: 10 }, false, false);
    let o = s.on_pen(PenEvent::Draw { x: 2, y: 100, pressure: 10 }, false, true);
    assert_eq!(o.ink, Color::Black);
    assert_eq!(o.segment.unwrap().control.width, 2 * 6 * 10);
    let o = s.on_pen(PenEvent::Hover { distance: 9 }, false, false);
    let d = o.drawing.unwrap();
    assert_eq!(d.color(), Color::White);
    assert_eq!(d.widths(), &vec![50, 2, 6]);
}
