//! What a finger paints on the canvas, by the mode of the touch screen. The
//! screen places a finger on a pixel; what is painted counts in canvas units
//! like everything else.

use vstd::prelude::*;
use crate::buttons::{finger_on, MultitouchEvent};
use crate::modes::touch::TouchMode;
use crate::rect::{
    all_wf, lemma_merged_is_least_cover, merged, DirtyRect, DirtyTracker, UNITS_PER_PIXEL,
};
use crate::smoother::{footprint, footprint_spec, Anchor, Sample, Segment};

verus! {

/// The radius of the circle that a finger paints: 20 pixels.
pub const CIRCLE_RADIUS: u32 = 1280;

/// A corner of a polygon.
#[derive(Clone, Copy, Debug, PartialEq, Eq, Structural)]
pub struct Corner {
    pub x: i32,
    pub y: i32,
}

/// What to paint for a finger.
#[derive(Debug, PartialEq, Eq)]
pub enum TouchShape {
    Nothing,
    /// A flourish of four curves in black.
    Curves(Vec<Segment>),
    /// A circle in black around the finger.
    Circle { x: i32, y: i32, radius: u32 },
    /// A diamond in black around the finger.
    Polygon { corners: Vec<Corner>, filled: bool },
}

/// One point of the flourish: its place relative to the finger, in pixels,
/// and the width of the curve there, as a numerator over 4096.
pub struct Mark {
    pub dx: int,
    pub dy: int,
    pub width: int,
}

/// The nine points of the flourish.
pub open spec fn mark(k: int) -> Mark {
    if k == 0 {
        Mark { dx: -40, dy: 0, width: 10240 }
    } else if k == 1 {
        Mark { dx: 40, dy: -60, width: 22528 }
    } else if k == 2 {
        Mark { dx: 0, dy: 0, width: 14336 }
    } else if k == 3 {
        Mark { dx: -40, dy: 60, width: 26624 }
    } else if k == 4 {
        Mark { dx: -10, dy: 50, width: 20480 }
    } else if k == 5 {
        Mark { dx: 10, dy: 45, width: 18432 }
    } else if k == 6 {
        Mark { dx: 30, dy: 55, width: 14336 }
    } else if k == 7 {
        Mark { dx: 50, dy: 65, width: 12288 }
    } else {
        Mark { dx: 70, dy: 40, width: 0 }
    }
}

/// Point `k` of the flourish around a finger, as the end of a curve.
pub open spec fn anchor_at(x: u16, y: u16, k: int) -> Anchor {
    Anchor {
        x2: (128 * (x + mark(k).dx)) as i64,
        y2: (128 * (y + mark(k).dy)) as i64,
        width: mark(k).width as i128,
    }
}

/// Point `k` of the flourish around a finger, as a place on the canvas.
pub open spec fn place_at(x: u16, y: u16, k: int) -> Sample {
    Sample {
        x: (64 * (x + mark(k).dx)) as i32,
        y: (64 * (y + mark(k).dy)) as i32,
        pressure: 0,
        tilt: None,
    }
}

/// Curve `c` of the flourish: it runs through the points `2c`, `2c + 1` and
/// `2c + 2`, so that each curve starts where the one before ended.
pub open spec fn curve_at(x: u16, y: u16, c: int) -> Segment {
    Segment {
        start: anchor_at(x, y, 2 * c),
        control: anchor_at(x, y, 2 * c + 1),
        end: anchor_at(x, y, 2 * c + 2),
        footprint: footprint_spec(
            place_at(x, y, 2 * c),
            place_at(x, y, 2 * c + 1),
            place_at(x, y, 2 * c + 2),
        ),
    }
}

/// The four curves of the flourish around a finger.
pub open spec fn flourish_spec(x: u16, y: u16) -> Seq<Segment> {
    Seq::new(4, |c: int| curve_at(x, y, c))
}

/// The four corners of the diamond around a finger: 10 pixels to either
/// side, 20 pixels above and below.
pub open spec fn diamond_spec(x: u16, y: u16) -> Seq<Corner> {
    seq![
        Corner { x: (64 * (x - 10)) as i32, y: (64 * y) as i32 },
        Corner { x: (64 * x) as i32, y: (64 * (y + 20)) as i32 },
        Corner { x: (64 * (x + 10)) as i32, y: (64 * y) as i32 },
        Corner { x: (64 * x) as i32, y: (64 * (y - 20)) as i32 },
    ]
}

/// Whether a finger paints: it presses or moves inside the canvas, in a mode
/// that paints.
pub open spec fn finger_paints(mode: TouchMode, input: MultitouchEvent, canvas: DirtyRect) -> bool {
    mode != TouchMode::OnlyUI && match input {
        MultitouchEvent::Press { finger } | MultitouchEvent::Move { finger } => finger_on(
            canvas,
            finger,
        ),
        _ => false,
    }
}

/// The place of point `k` of the flourish and the width there.
fn mark_at(x: u16, y: u16, k: usize) -> (r: (Anchor, Sample))
    requires
        k <= 8,
    ensures
        r.0 == anchor_at(x, y, k as int),
        r.1 == place_at(x, y, k as int),
{
    let (dx, dy, width): (i32, i32, i128) = if k == 0 {
        (-40, 0, 10240)
    } else if k == 1 {
        (40, -60, 22528)
    } else if k == 2 {
        (0, 0, 14336)
    } else if k == 3 {
        (-40, 60, 26624)
    } else if k == 4 {
        (-10, 50, 20480)
    } else if k == 5 {
        (10, 45, 18432)
    } else if k == 6 {
        (30, 55, 14336)
    } else if k == 7 {
        (50, 65, 12288)
    } else {
        (70, 40, 0)
    };
    let px: i32 = UNITS_PER_PIXEL * (x as i32 + dx);
    let py: i32 = UNITS_PER_PIXEL * (y as i32 + dy);
    (
        Anchor { x2: 2 * (px as i64), y2: 2 * (py as i64), width },
        Sample { x: px, y: py, pressure: 0, tilt: None },
    )
}

/// The four curves of the flourish around a finger.
pub fn flourish(x: u16, y: u16) -> (r: Vec<Segment>)
    ensures
        r@ == flourish_spec(x, y),
        forall|i: int| 0 <= i < r@.len() ==> (#[trigger] r@[i]).footprint.wf(),
{
    let mut out: Vec<Segment> = Vec::with_capacity(4);
    let mut c: usize = 0;
    while c < 4
        invariant
            c <= 4,
            out@.len() == c,
            forall|k: int| 0 <= k < c ==> out@[k] == curve_at(x, y, k),
            forall|k: int| 0 <= k < c ==> (#[trigger] out@[k]).footprint.wf(),
        decreases 4 - c,
    {
        let (start, a) = mark_at(x, y, 2 * c);
        let (control, b) = mark_at(x, y, 2 * c + 1);
        let (end, d) = mark_at(x, y, 2 * c + 2);
        out.push(Segment { start, control, end, footprint: footprint(&a, &b, &d) });
        c = c + 1;
    }
    assert(out@ =~= flourish_spec(x, y));
    out
}

/// The footprints of a row of curves, in order.
pub open spec fn footprints(curves: Seq<Segment>) -> Seq<DirtyRect> {
    Seq::new(curves.len(), |i: int| curves[i].footprint)
}

/// The region that a row of curves paints: their footprints, merged one by
/// one into the empty rectangle.
pub fn region_of(curves: &Vec<Segment>) -> (r: DirtyRect)
    requires
        forall|i: int| 0 <= i < curves@.len() ==> (#[trigger] curves@[i]).footprint.wf(),
    ensures
        r == merged(footprints(curves@)),
        r.wf(),
        forall|i: int| 0 <= i < curves@.len() ==> r.covers((#[trigger] curves@[i]).footprint),
{
    proof {
        let rects = footprints(curves@);
        assert(all_wf(rects)) by {
            assert forall|i: int| 0 <= i < rects.len() implies (#[trigger] rects[i]).wf() by {
                assert(rects[i] == curves@[i].footprint);
            }
        }
        lemma_merged_is_least_cover(rects, DirtyRect::Invalid);
        assert forall|i: int| 0 <= i < curves@.len() implies merged(rects).covers(
            (#[trigger] curves@[i]).footprint,
        ) by {
            assert(rects[i] == curves@[i].footprint);
        }
    }
    let mut tracker = DirtyTracker::new();
    let mut i: usize = 0;
    while i < curves.len()
        invariant
            i <= curves@.len(),
            tracker.wf(),
            tracker@.added == footprints(curves@).take(i as int),
            forall|k: int| 0 <= k < curves@.len() ==> (#[trigger] curves@[k]).footprint.wf(),
        decreases curves@.len() - i,
    {
        tracker.add(&curves[i].footprint);
        assert(tracker@.added =~= footprints(curves@).take(i + 1));
        i = i + 1;
    }
    assert(footprints(curves@).take(i as int) =~= footprints(curves@));
    tracker.take()
}

/// What a finger paints on the canvas in the given mode, and the region to
/// repaint for it.
///
/// Only a finger that presses or moves inside the canvas paints, and only in
/// a mode other than `OnlyUI`: a flourish, a circle, or a diamond that is
/// filled or not. The region of a flourish is the smallest rectangle that
/// covers its four curves, so that one repaint shows them all. For the other
/// shapes the one who paints them knows the region, and none is given.
pub fn on_touch_handler(mode: TouchMode, input: MultitouchEvent, canvas: &DirtyRect) -> (r: (
    TouchShape,
    DirtyRect,
))
    requires
        canvas.wf(),
    ensures
        !finger_paints(mode, input, *canvas) ==> r.0 is Nothing,
        finger_paints(mode, input, *canvas) ==> match input {
            MultitouchEvent::Press { finger } | MultitouchEvent::Move { finger } => match mode {
                TouchMode::Bezier => r.0 matches TouchShape::Curves(curves) && curves@
                    == flourish_spec(finger.x, finger.y),
                TouchMode::Circles => r.0 matches TouchShape::Circle { x, y, radius } && x == 64
                    * finger.x && y == 64 * finger.y && radius == 1280,
                TouchMode::Diamonds => r.0 matches TouchShape::Polygon { corners, filled }
                    && corners@ == diamond_spec(finger.x, finger.y) && !filled,
                TouchMode::FillDiamonds => r.0 matches TouchShape::Polygon { corners, filled }
                    && corners@ == diamond_spec(finger.x, finger.y) && filled,
                TouchMode::OnlyUI => false,
            },
            _ => false,
        },
        r.0 matches TouchShape::Curves(curves) ==> r.1 == merged(footprints(curves@)) && (
        forall|i: int| 0 <= i < curves@.len() ==> r.1.covers((#[trigger] curves@[i]).footprint)),
        !(r.0 is Curves) ==> r.1 == DirtyRect::Invalid,
        r.1.wf(),
{
    let finger = match input {
        MultitouchEvent::Press { finger } => finger,
        MultitouchEvent::Move { finger } => finger,
        _ => {
            return (TouchShape::Nothing, DirtyRect::Invalid);
        },
    };
    let x: i32 = UNITS_PER_PIXEL * (finger.x as i32);
    let y: i32 = UNITS_PER_PIXEL * (finger.y as i32);
    if !canvas.contains_point(x, y) {
        return (TouchShape::Nothing, DirtyRect::Invalid);
    }
    match mode {
        TouchMode::Bezier => {
            let curves = flourish(finger.x, finger.y);
            let region = region_of(&curves);
            (TouchShape::Curves(curves), region)
        },
        TouchMode::Circles => (
            TouchShape::Circle { x, y, radius: CIRCLE_RADIUS },
            DirtyRect::Invalid,
        ),
        TouchMode::Diamonds | TouchMode::FillDiamonds => {
            let mut corners: Vec<Corner> = Vec::with_capacity(4);
            corners.push(Corner { x: x - 10 * UNITS_PER_PIXEL, y });
            corners.push(Corner { x, y: y + 20 * UNITS_PER_PIXEL });
            corners.push(Corner { x: x + 10 * UNITS_PER_PIXEL, y });
            corners.push(Corner { x, y: y - 20 * UNITS_PER_PIXEL });
            assert(corners@ =~= diamond_spec(finger.x, finger.y));
            (
                TouchShape::Polygon { corners, filled: matches!(mode, TouchMode::FillDiamonds) },
                DirtyRect::Invalid,
            )
        },
        TouchMode::OnlyUI => (TouchShape::Nothing, DirtyRect::Invalid),
    }
}

/// A key of the device.
#[derive(Clone, Copy, Debug, PartialEq, Eq, Structural)]
pub enum PhysicalButton {
    Left,
    Middle,
    Right,
    Power,
    Wakeup,
}

/// One event of the keys.
#[derive(Clone, Copy, Debug, PartialEq, Eq, Structural)]
pub enum GPIOEvent {
    Press { button: PhysicalButton },
    Unpress { button: PhysicalButton },
    Unknown,
}

/// What a key asks for.
#[derive(Clone, Copy, Debug, PartialEq, Eq, Structural)]
pub enum KeyAction {
    Nothing,
    /// Switch the touch screen on or off, as `active` says.
    SetTouch { active: bool },
    /// Clear the screen, thoroughly or not, and paint the controls again.
    Clear { deep: bool },
    /// Leave the program.
    Quit,
    /// The wake-up key: nothing but a note.
    Wake,
}

/// What a key event asks for, as a value.
pub open spec fn key_action(input: GPIOEvent, pen_in_range: bool, touch_active: bool) -> KeyAction {
    match input {
        GPIOEvent::Press { button } => if pen_in_range {
            KeyAction::Nothing
        } else {
            match button {
                PhysicalButton::Right => KeyAction::SetTouch { active: !touch_active },
                PhysicalButton::Middle => KeyAction::Clear { deep: true },
                PhysicalButton::Left => KeyAction::Clear { deep: false },
                PhysicalButton::Power => KeyAction::Quit,
                PhysicalButton::Wakeup => KeyAction::Wake,
            }
        },
        _ => KeyAction::Nothing,
    }
}

/// The label of the key that switches the touch screen, once it is in the
/// given state: it names what the next press does.
pub fn touch_label(active: bool) -> (label: &'static str)
    ensures
        label@ == (if active { "Disable Touch"@ } else { "Enable Touch"@ }),
{
    if active {
        "Disable Touch"
    } else {
        "Enable Touch"
    }
}

/// What a key event asks for. Only presses count, and none while the pen is
/// near the surface, where a key is pressed by accident.
pub fn on_button_press(input: GPIOEvent, pen_in_range: bool, touch_active: bool) -> (r: KeyAction)
    ensures
        r == key_action(input, pen_in_range, touch_active),
{
    let button = match input {
        GPIOEvent::Press { button } => button,
        GPIOEvent::Unpress { .. } => {
            return KeyAction::Nothing;
        },
        GPIOEvent::Unknown => {
            return KeyAction::Nothing;
        },
    };
    if pen_in_range {
        return KeyAction::Nothing;
    }
    match button {
        PhysicalButton::Right => KeyAction::SetTouch { active: !touch_active },
        PhysicalButton::Middle => KeyAction::Clear { deep: true },
        PhysicalButton::Left => KeyAction::Clear { deep: false },
        PhysicalButton::Power => KeyAction::Quit,
        PhysicalButton::Wakeup => KeyAction::Wake,
    }
}

} // verus!
