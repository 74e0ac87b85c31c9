//! The mode of the touch screen: what a finger paints.

use vstd::prelude::*;

verus! {

#[derive(Clone, Copy, Debug, PartialEq, Eq, Structural)]
pub enum TouchMode {
    OnlyUI,
    Bezier,
    Circles,
    Diamonds,
    FillDiamonds,
}

impl TouchMode {
    /// The mode that follows in the cycle.
    pub open spec fn toggle_spec(self) -> TouchMode {
        match self {
            TouchMode::OnlyUI => TouchMode::Bezier,
            TouchMode::Bezier => TouchMode::Circles,
            TouchMode::Circles => TouchMode::Diamonds,
            TouchMode::Diamonds => TouchMode::FillDiamonds,
            TouchMode::FillDiamonds => TouchMode::OnlyUI,
        }
    }

    /// The number of the mode, from 1 to 5.
    pub open spec fn code_spec(self) -> u8 {
        match self {
            TouchMode::OnlyUI => 1,
            TouchMode::Bezier => 2,
            TouchMode::Circles => 3,
            TouchMode::Diamonds => 4,
            TouchMode::FillDiamonds => 5,
        }
    }

    /// The mode that follows in the cycle.
    pub fn toggle(self) -> (r: TouchMode)
        ensures
            r == self.toggle_spec(),
    {
        match self {
            TouchMode::OnlyUI => TouchMode::Bezier,
            TouchMode::Bezier => TouchMode::Circles,
            TouchMode::Circles => TouchMode::Diamonds,
            TouchMode::Diamonds => TouchMode::FillDiamonds,
            TouchMode::FillDiamonds => TouchMode::OnlyUI,
        }
    }

    /// The name that the mode is shown under.
    pub fn name(self) -> (name: &'static str)
        ensures
            name@ == (match self {
                TouchMode::OnlyUI => "None"@,
                TouchMode::Bezier => "Bezier"@,
                TouchMode::Circles => "Circles"@,
                TouchMode::Diamonds => "Diamonds"@,
                TouchMode::FillDiamonds => "FDiamonds"@,
            }),
    {
        match self {
            TouchMode::OnlyUI => "None",
            TouchMode::Bezier => "Bezier",
            TouchMode::Circles => "Circles",
            TouchMode::Diamonds => "Diamonds",
            TouchMode::FillDiamonds => "FDiamonds",
        }
    }

    /// The number of the mode.
    pub fn to_code(self) -> (code: u8)
        ensures
            code == self.code_spec(),
            1 <= code <= 5,
    {
        match self {
            TouchMode::OnlyUI => 1,
            TouchMode::Bezier => 2,
            TouchMode::Circles => 3,
            TouchMode::Diamonds => 4,
            TouchMode::FillDiamonds => 5,
        }
    }

    /// The mode with the given number.
    pub fn from_code(code: u8) -> (mode: TouchMode)
        requires
            1 <= code <= 5,
        ensures
            mode.code_spec() == code,
    {
        if code == 1 {
            TouchMode::OnlyUI
        } else if code == 2 {
            TouchMode::Bezier
        } else if code == 3 {
            TouchMode::Circles
        } else if code == 4 {
            TouchMode::Diamonds
        } else {
            TouchMode::FillDiamonds
        }
    }
}

/// Toggling five times comes back to the mode it started from, and fewer
/// times do not.
pub proof fn lemma_toggle_cycle(mode: TouchMode)
    ensures
        mode.toggle_spec().toggle_spec().toggle_spec().toggle_spec().toggle_spec() == mode,
        mode.toggle_spec() != mode,
        mode.toggle_spec().toggle_spec() != mode,
        mode.toggle_spec().toggle_spec().toggle_spec() != mode,
        mode.toggle_spec().toggle_spec().toggle_spec().toggle_spec() != mode,
{
}

/// Two modes with one number are one mode.
pub proof fn lemma_code_names_the_mode(a: TouchMode, b: TouchMode)
    requires
        a.code_spec() == b.code_spec(),
    ensures
        a == b,
{
}

} // verus!
