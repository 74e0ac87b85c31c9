//! Buttons on the touch screen: a button is held while the finger that
//! pressed it stays on it.

use vstd::prelude::*;
use crate::rect::{DirtyRect, UNITS_PER_PIXEL};

verus! {

/// The tracking id that stands for no finger.
pub const NO_FINGER: i32 = -1;

/// The width of a button: 100 pixels.
pub const BUTTON_WIDTH: i32 = 6400;

/// The height of a button: 60 pixels.
pub const BUTTON_HEIGHT: i32 = 3840;

/// One finger on the touch screen. The screen places it on a pixel.
#[derive(Clone, Copy, Debug, PartialEq, Eq, Structural)]
pub struct Finger {
    pub tracking_id: i32,
    pub x: u16,
    pub y: u16,
}

/// One event of the touch screen.
#[derive(Clone, Copy, Debug, PartialEq, Eq, Structural)]
pub enum MultitouchEvent {
    Press { finger: Finger },
    Move { finger: Finger },
    Release { finger: Finger },
    Unknown,
}

/// The area of the `nth` button: buttons stand side by side along the top
/// edge, each 100 pixels wide and 60 pixels high.
pub open spec fn area_spec(nth: u8) -> DirtyRect {
    DirtyRect::Area { left: (6400 * nth) as i32, top: 0, width: 6399, height: 3839 }
}

/// Whether a finger lies in a rectangle of the canvas.
pub open spec fn finger_on(area: DirtyRect, finger: Finger) -> bool {
    area.has_point(64 * finger.x, 64 * finger.y)
}

/// The finger that holds a button after an event, given the finger that held
/// it before. A finger that presses or moves on the button takes it; the
/// finger that holds it lets go by leaving the button or the screen.
pub open spec fn holder_after(area: DirtyRect, holder: i32, input: MultitouchEvent) -> i32 {
    match input {
        MultitouchEvent::Press { finger } | MultitouchEvent::Move { finger } => {
            if finger_on(area, finger) {
                finger.tracking_id
            } else if holder == finger.tracking_id {
                -1i32
            } else {
                holder
            }
        },
        MultitouchEvent::Release { finger } => {
            if holder == finger.tracking_id {
                -1i32
            } else {
                holder
            }
        },
        MultitouchEvent::Unknown => holder,
    }
}

/// Whether the event names a finger that can hold a button.
pub open spec fn names_a_finger(input: MultitouchEvent) -> bool {
    match input {
        MultitouchEvent::Press { finger } | MultitouchEvent::Move { finger }
        | MultitouchEvent::Release { finger } => finger.tracking_id != -1,
        MultitouchEvent::Unknown => true,
    }
}

#[derive(Debug)]
pub struct Button {
    name: &'static str,
    area: DirtyRect,
    inner: i32,
}

impl Button {
    /// The finger that holds the button, or `NO_FINGER`.
    pub closed spec fn holder(&self) -> i32 {
        self.inner
    }

    /// The area of the button.
    pub closed spec fn area(&self) -> DirtyRect {
        self.area
    }

    /// The name of the button.
    pub closed spec fn label(&self) -> &'static str {
        self.name
    }

    /// The `nth` button from the left, which nobody holds.
    #[inline]
    #[must_use]
    pub fn new(nth: u8, name: &'static str) -> (b: Button)
        ensures
            b.area() == area_spec(nth),
            b.area().wf(),
            b.holder() == -1,
            b.label() == name,
    {
        let left: i32 = BUTTON_WIDTH * (nth as i32);
        let area = DirtyRect::Area {
            left,
            top: 0,
            width: (BUTTON_WIDTH - 1) as u32,
            height: (BUTTON_HEIGHT - 1) as u32,
        };
        Button { name, area, inner: NO_FINGER }
    }

    /// The name that the button was made with.
    pub fn name(&self) -> (name: &'static str)
        ensures
            name == self.label(),
    {
        self.name
    }

    /// Whether a finger holds the button.
    #[inline]
    #[must_use]
    pub fn is_pressed(&self) -> (r: bool)
        ensures
            r == (self.holder() != -1),
    {
        self.inner != NO_FINGER
    }

    /// Gives the button to a finger. Returns whether the button was free
    /// before.
    fn press(&mut self, tracking_id: i32) -> (r: bool)
        requires
            tracking_id != -1,
        ensures
            r == (old(self).holder() == -1),
            final(self).holder() == tracking_id,
            final(self).area() == old(self).area(),
            final(self).label() == old(self).label(),
    {
        let before = self.inner;
        self.inner = tracking_id;
        before == NO_FINGER
    }

    /// Frees the button if the given finger holds it. Returns whether it
    /// did.
    fn unpress(&mut self, tracking_id: i32) -> (r: bool)
        requires
            tracking_id != -1,
        ensures
            r == (old(self).holder() == tracking_id),
            final(self).holder() == (if r { -1i32 } else { old(self).holder() }),
            final(self).area() == old(self).area(),
            final(self).label() == old(self).label(),
    {
        if self.inner == tracking_id {
            self.inner = NO_FINGER;
            true
        } else {
            false
        }
    }

    /// Whether the finger lies on the button.
    fn contains(&self, finger: Finger) -> (r: bool)
        requires
            self.area().wf(),
        ensures
            r == finger_on(self.area(), finger),
    {
        self.area.contains_point(
            UNITS_PER_PIXEL * (finger.x as i32),
            UNITS_PER_PIXEL * (finger.y as i32),
        )
    }

    /// Applies one event of the touch screen to the button.
    #[inline]
    pub fn process_event(&mut self, input: MultitouchEvent)
        requires
            old(self).area().wf(),
            names_a_finger(input),
        ensures
            final(self).holder() == holder_after(old(self).area(), old(self).holder(), input),
            final(self).area() == old(self).area(),
            final(self).label() == old(self).label(),
    {
        match input {
            MultitouchEvent::Press { finger } | MultitouchEvent::Move { finger } => {
                if self.contains(finger) {
                    let _ = self.press(finger.tracking_id);
                } else {
                    let _ = self.unpress(finger.tracking_id);
                }
            },
            MultitouchEvent::Release { finger } => {
                let _ = self.unpress(finger.tracking_id);
            },
            MultitouchEvent::Unknown => {},
        }
    }
}

} // verus!
