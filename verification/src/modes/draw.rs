//! The mode of the pen: drawing or erasing, each with a brush size.

use vstd::prelude::*;
use crate::drawing::Color;

verus! {

/// The smallest brush size that the width buttons reach.
pub const MIN_SIZE: u32 = 1;

/// The largest brush size that the width buttons reach.
pub const MAX_SIZE: u32 = 99;

/// How much wider the eraser is than the pen of the same size.
pub const ERASER_FACTOR: u32 = 3;

#[derive(Clone, Copy, Debug, PartialEq, Eq, Structural)]
pub enum DrawMode {
    Draw(u32),
    Erase(u32),
}

impl DrawMode {
    /// The brush size of the mode.
    pub open spec fn size(self) -> u32 {
        match self {
            DrawMode::Draw(s) => s,
            DrawMode::Erase(s) => s,
        }
    }

    /// The mode as one number: the size when drawing, minus the size when
    /// erasing.
    pub open spec fn code_spec(self) -> int {
        match self {
            DrawMode::Draw(s) => s as int,
            DrawMode::Erase(s) => -(s as int),
        }
    }

    /// The mode that a number stands for: erasing when it is negative.
    pub open spec fn from_code_spec(code: int) -> DrawMode {
        if code >= 0 {
            DrawMode::Draw(code as u32)
        } else {
            DrawMode::Erase((-code) as u32)
        }
    }

    /// The size after the width buttons moved it by `delta`, kept between
    /// `MIN_SIZE` and `MAX_SIZE`.
    pub open spec fn resized_spec(self, delta: i32) -> u32 {
        let proposed = self.size() + delta;
        if proposed < 1 {
            1
        } else if proposed > 99 {
            99
        } else {
            proposed as u32
        }
    }

    /// The same mode with another brush size.
    pub fn set_size(self, new_size: u32) -> (r: DrawMode)
        ensures
            r.size() == new_size,
            (r is Draw) == (self is Draw),
    {
        match self {
            DrawMode::Draw(_) => DrawMode::Draw(new_size),
            DrawMode::Erase(_) => DrawMode::Erase(new_size),
        }
    }

    /// The brush size of the mode.
    pub fn get_size(self) -> (s: u32)
        ensures
            s == self.size(),
    {
        match self {
            DrawMode::Draw(s) => s,
            DrawMode::Erase(s) => s,
        }
    }

    /// The name of the ink: `"Black"` when drawing, `"White"` when erasing.
    pub fn color_as_string(self) -> (name: &'static str)
        ensures
            name@ == (if self is Draw { "Black"@ } else { "White"@ }),
    {
        match self {
            DrawMode::Draw(_) => "Black",
            DrawMode::Erase(_) => "White",
        }
    }

    /// The ink and the brush multiplier of the mode: the eraser is three
    /// times as wide as the pen.
    pub fn brush(self) -> (r: (Color, u32))
        requires
            self is Erase ==> self.size() * 3 <= u32::MAX,
        ensures
            r.0 == (if self is Draw { Color::Black } else { Color::White }),
            r.1 == (if self is Draw { self.size() as int } else { self.size() * 3 }),
    {
        match self {
            DrawMode::Draw(s) => (Color::Black, s),
            DrawMode::Erase(s) => (Color::White, s * ERASER_FACTOR),
        }
    }

    /// The other mode with the same size, and the label of the button that
    /// switches back.
    pub fn toggled(self) -> (r: (DrawMode, &'static str))
        ensures
            r.0.size() == self.size(),
            (r.0 is Draw) == (self is Erase),
            r.1@ == (if self is Erase { "Switch to BLACK"@ } else { "Switch to WHITE"@ }),
    {
        match self {
            DrawMode::Erase(s) => (DrawMode::Draw(s), "Switch to BLACK"),
            DrawMode::Draw(s) => (DrawMode::Erase(s), "Switch to WHITE"),
        }
    }

    /// Moves the brush size by `delta`, within `MIN_SIZE` and `MAX_SIZE`.
    /// Returns the new mode, or nothing when the size stays as it is.
    pub fn resized(self, delta: i32) -> (r: Option<DrawMode>)
        ensures
            self.resized_spec(delta) == self.size() ==> r.is_none(),
            self.resized_spec(delta) != self.size() ==> r.is_some() && r.unwrap().size()
                == self.resized_spec(delta) && (r.unwrap() is Draw) == (self is Draw),
    {
        let current: i64 = self.get_size() as i64;
        let proposed: i64 = current + delta as i64;
        let new_size: i64 = if proposed < MIN_SIZE as i64 {
            MIN_SIZE as i64
        } else if proposed > MAX_SIZE as i64 {
            MAX_SIZE as i64
        } else {
            proposed
        };
        if new_size == current {
            None
        } else {
            Some(self.set_size(new_size as u32))
        }
    }

    /// The mode as one number.
    pub fn to_code(self) -> (code: i32)
        requires
            self.size() <= i32::MAX,
        ensures
            code == self.code_spec(),
    {
        match self {
            DrawMode::Draw(s) => s as i32,
            DrawMode::Erase(s) => -(s as i32),
        }
    }

    /// The mode that a number stands for.
    pub fn from_code(code: i32) -> (mode: DrawMode)
        requires
            code > i32::MIN,
        ensures
            mode == Self::from_code_spec(code as int),
    {
        if code >= 0 {
            DrawMode::Draw(code as u32)
        } else {
            DrawMode::Erase((-code) as u32)
        }
    }
}

impl Default for DrawMode {
    /// Drawing with a brush of size 2.
    fn default() -> (r: DrawMode)
        ensures
            r == DrawMode::Draw(2),
    {
        DrawMode::Draw(2)
    }
}

/// A number that was turned into a mode turns back into itself.
pub proof fn lemma_code_round_trip(code: i32)
    requires
        code > i32::MIN,
    ensures
        DrawMode::from_code_spec(code as int).code_spec() == code,
{
}

/// A mode that was turned into a number turns back into itself, but for
/// erasing with size zero, which has the number of drawing with size zero.
pub proof fn lemma_mode_round_trip(mode: DrawMode)
    requires
        mode.size() <= i32::MAX,
        mode != DrawMode::Erase(0),
    ensures
        DrawMode::from_code_spec(mode.code_spec()) == mode,
{
}

/// The width buttons never leave the range of sizes, and inside it they move
/// the size by exactly `delta`.
pub proof fn lemma_resized_in_range(mode: DrawMode, delta: i32)
    ensures
        1 <= mode.resized_spec(delta) <= 99,
        1 <= mode.size() + delta <= 99 ==> mode.resized_spec(delta) == mode.size() + delta,
{
}

} // verus!
